pub mod admin_dashboard;
pub mod auth_core;
pub mod shared_contracts;
pub mod user_reg;
