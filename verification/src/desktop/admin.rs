//! Desktop-only admin console, separate from the six client commands.

pub use crate::modules::admin_dashboard::{
    adapters, auth, authz, compatibility, ops, queue, realtime,
};
