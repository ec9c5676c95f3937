//! Crate-level desktop API: command wiring, persistence naming and the
//! admin console domain.

pub mod admin;
pub mod persistence;
pub mod tauri;
