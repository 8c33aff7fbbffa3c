//! Sanitized manager failure categories.
use vstd::prelude::*;

verus! {

/// Fixed failures of manager operations; no paths, argv or OS text.
#[derive(Clone, Copy, Debug, PartialEq, Eq, Structural)]
pub enum ManagerError {
    InvalidRequest,
    UnsafePath,
    RuntimeUnavailable,
    OwnershipUnverified,
    UnknownOutcome,
    ActionUnavailable,
}

} // verus!
