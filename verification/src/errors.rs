//! The fatal ways a start attempt can end, and their diagnostics.
//!
//! Transient health-check misses are retried inside the poll budget and
//! never surface here; only the fatal outcomes do.  Stopping never errors.

use vstd::prelude::*;

verus! {

/// Why a start attempt failed.  The payload carries the underlying
/// diagnostic text where one exists.
pub enum StartError {
    /// No usable port: the allocator's bind or address read failed.
    Allocation(String),
    /// Paths unresolvable or the data directory uncreatable; the payload
    /// carries the full diagnostic of whichever path step failed.
    Environment(String),
    /// The child could not be launched.
    Spawn(String),
    /// The child launched but never answered alive within the poll budget.
    HealthCheck,
    /// The supervisor's state could not be locked.
    Lock(String),
}

impl StartError {
    /// The diagnostic line reported to the host application.
    pub fn message(&self) -> (m: String)
        ensures
            match self {
                StartError::Allocation(detail) => m@ == "Failed to find available port: "@
                    + detail@,
                StartError::Environment(detail) => m@ == detail@,
                StartError::Spawn(detail) => m@ == "Failed to start backend: "@ + detail@,
                StartError::HealthCheck => m@ == "Backend failed to start within 30 seconds"@,
                StartError::Lock(detail) => m@ == "Lock error: "@ + detail@,
            },
    {
        match self {
            StartError::Allocation(detail) => {
                let mut m = "Failed to find available port: ".to_owned();
                m.append(detail.as_str());
                m
            },
            StartError::Environment(detail) => detail.as_str().to_owned(),
            StartError::Spawn(detail) => {
                let mut m = "Failed to start backend: ".to_owned();
                m.append(detail.as_str());
                m
            },
            StartError::HealthCheck => "Backend failed to start within 30 seconds".to_owned(),
            StartError::Lock(detail) => {
                let mut m = "Lock error: ".to_owned();
                m.append(detail.as_str());
                m
            },
        }
    }
}

} // verus!
