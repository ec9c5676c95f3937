//! Audit events of the licensing API.

use vstd::prelude::*;

verus! {

#[derive(Debug, Clone, Copy, PartialEq, Eq, Structural)]
pub enum AuditEventType {
    ActivationSucceeded,
    ActivationDenied,
    SessionRenewed,
    ResetRequestSubmitted,
    ResetRequestUnderReview,
    ResetApproved,
    ResetRejected,
    AdminAuthChallengeIssued,
    AdminAuthSucceeded,
    AdminAuthFailed,
    LicenseRevoked,
    LicenseSuspended,
}

#[derive(Debug, Clone, Copy, PartialEq, Eq, Structural)]
pub enum ActorType {
    Admin,
    System,
    Customer,
}

#[derive(Debug, Clone, PartialEq, Eq)]
pub struct Actor {
    pub actor_type: ActorType,
    pub id: String,
}

#[derive(Debug, Clone, PartialEq, Eq)]
pub struct EventMetadata {
    pub ip: Option<String>,
    pub app_version: Option<String>,
    pub reason: Option<String>,
}

#[derive(Debug, Clone, PartialEq, Eq)]
pub struct AuditEvent {
    pub event_id: String,
    pub event_type: AuditEventType,
    pub occurred_at: String,
    pub actor: Actor,
    pub license_id: Option<String>,
    pub reset_request_id: Option<String>,
    pub old_device_id: Option<String>,
    pub new_device_id: Option<String>,
    pub request_id: String,
    pub metadata: EventMetadata,
}

} // verus!
