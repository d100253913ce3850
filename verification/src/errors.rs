//! The error taxonomy of the submission pipeline.
//!
//! Configuration and request faults are the caller's and are rejected at the
//! boundary; broadcast faults and confirmation timeouts are the network's.
//! A quote failure is deliberately not here: it degrades to a zero
//! minimum-output bound instead of blocking the trade. A pending inclusion is
//! not here either: it is a legitimate terminal outcome, not an error.

use vstd::prelude::*;

verus! {

/// Why a submission was refused or gave up.
#[derive(Debug)]
pub enum SubmitError {
    /// A required configuration setting is absent.
    MissingSetting { name: String },
    /// A configuration setting is present but malformed.
    InvalidSetting { name: String },
    /// A request field is malformed.
    InvalidRequest { field: String },
    /// The node or relay rejected the signed transaction or bundle.
    Broadcast { message: String },
    /// The confirmation deadline passed without a terminal status.
    PollTimeout,
}

impl SubmitError {
    /// Caller faults: wrong configuration or a malformed request. Everything
    /// else is a submission-side fault.
    pub open spec fn is_caller_fault_spec(&self) -> bool {
        self is MissingSetting || self is InvalidSetting || self is InvalidRequest
    }

    /// Whether this error is the caller's fault.
    pub fn is_caller_fault(&self) -> (r: bool)
        ensures
            r == self.is_caller_fault_spec(),
    {
        match self {
            SubmitError::MissingSetting { .. } => true,
            SubmitError::InvalidSetting { .. } => true,
            SubmitError::InvalidRequest { .. } => true,
            SubmitError::Broadcast { .. } => false,
            SubmitError::PollTimeout => false,
        }
    }

    /// The HTTP status class this error is reported with: 400 for caller
    /// faults, 500 for submission-side faults.
    pub fn http_status(&self) -> (r: u16)
        ensures
            r == 400 <==> self.is_caller_fault_spec(),
            r == 400 || r == 500,
    {
        if self.is_caller_fault() {
            400
        } else {
            500
        }
    }
}

} // verus!
