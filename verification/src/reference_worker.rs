//! Local reference backend, for local testing and route-contract reasoning.
//! It is not a production backend and keeps nothing durably.

pub use crate::modules::user_reg::licensing_worker::{
    AuditEvent, DeviceBinding, InMemoryWorkerStore, LicenseRecord, PurchaserIdentity,
    StoredResetRequest, WorkerApp, WorkerView,
};
