//! Common structures shared by the host runtime and policy consumers.

use vstd::prelude::*;

verus! {

/// Policy evaluation request.
#[derive(Debug, Clone)]
pub struct PolicyRequest {
    /// Role of the requester (e.g., "admin", "operator", "viewer").
    pub role: Option<String>,
    /// Resource being accessed.
    pub resource: Option<String>,
    /// Action being performed.
    pub action: Option<String>,
    /// Whether the request is explicitly blocked.
    pub blocked: bool,
}

/// Policy evaluation result.
#[derive(Debug, Clone, Copy, PartialEq, Eq, Structural)]
pub enum PolicyResult {
    Allow,
    Deny,
}

impl PolicyResult {
    pub fn is_allowed(&self) -> (r: bool)
        ensures
            r == (*self is Allow),
    {
        matches!(self, PolicyResult::Allow)
    }
}

/// Response from the policy evaluation endpoint.
#[derive(Debug, Clone)]
pub struct PolicyResponse {
    pub allowed: bool,
    pub policy_version: String,
    /// Absent on success; holds a diagnostic when the evaluation failed.
    pub error: Option<String>,
}

} // verus!
