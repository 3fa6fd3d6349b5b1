use vstd::prelude::*;

verus! {

/// The lifecycle of a job record. `NotFound` is never stored: it is the
/// lookup's representation of an absent ticket.
#[derive(Debug, Clone, Copy, PartialEq, Eq, Structural)]
pub enum InferStatus {
    Created,
    InProgress,
    Success,
    Failure,
    NotFound,
}

pub const STATUS_CREATED: u8 = 1;

pub const STATUS_IN_PROGRESS: u8 = 2;

pub const STATUS_SUCCESS: u8 = 3;

pub const STATUS_FAILURE: u8 = 4;

pub const STATUS_NOT_FOUND: u8 = 5;

impl InferStatus {
    /// The small integer code under which a status is persisted.
    pub open spec fn as_code(self) -> u8 {
        match self {
            InferStatus::Created => STATUS_CREATED,
            InferStatus::InProgress => STATUS_IN_PROGRESS,
            InferStatus::Success => STATUS_SUCCESS,
            InferStatus::Failure => STATUS_FAILURE,
            InferStatus::NotFound => STATUS_NOT_FOUND,
        }
    }

    pub fn code(self) -> (r: u8)
        ensures
            r == self.as_code(),
    {
        match self {
            InferStatus::Created => STATUS_CREATED,
            InferStatus::InProgress => STATUS_IN_PROGRESS,
            InferStatus::Success => STATUS_SUCCESS,
            InferStatus::Failure => STATUS_FAILURE,
            InferStatus::NotFound => STATUS_NOT_FOUND,
        }
    }

    /// Decodes a persisted status code; codes outside 1 through 5 have no
    /// status.
    pub fn from_code(value: u8) -> (r: Option<InferStatus>)
        ensures
            r is Some <==> STATUS_CREATED <= value <= STATUS_NOT_FOUND,
            r is Some ==> r->0.as_code() == value,
    {
        if value == STATUS_CREATED {
            Some(InferStatus::Created)
        } else if value == STATUS_IN_PROGRESS {
            Some(InferStatus::InProgress)
        } else if value == STATUS_SUCCESS {
            Some(InferStatus::Success)
        } else if value == STATUS_FAILURE {
            Some(InferStatus::Failure)
        } else if value == STATUS_NOT_FOUND {
            Some(InferStatus::NotFound)
        } else {
            None
        }
    }

    /// A terminal status admits no further transition.
    pub open spec fn spec_is_terminal(self) -> bool {
        self == InferStatus::Success || self == InferStatus::Failure
    }

    pub fn is_terminal(self) -> (r: bool)
        ensures
            r == self.spec_is_terminal(),
    {
        match self {
            InferStatus::Success => true,
            InferStatus::Failure => true,
            _ => false,
        }
    }
}

/// The errors this library reports. A lookup of an unknown ticket is not an
/// error: absence is encoded in the returned record's status.
#[derive(Debug, Clone, Copy, PartialEq, Eq, Structural)]
pub enum LlmError {
    /// A submission carried an empty prompt, or an evaluation an empty output.
    InvalidInput,
    /// A claim or completion addressed a ticket with no matching claimable row.
    NotFoundError,
    /// The inference backend failed or returned an unusable response.
    BackendError,
    /// The persistence layer is unreachable or corrupt.
    StorageError,
}

} // verus!
