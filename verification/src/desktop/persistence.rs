//! Desktop persistence naming.

pub use crate::modules::user_reg::auth_licensing_tauri::{
    AppDataStateStore, InMemorySecretStore, KeychainSecretStore,
};
