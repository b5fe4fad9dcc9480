use vstd::prelude::*;

use crate::status::Status;

verus! {

/// Extraction variant chosen at submission; opaque to the task core.
#[derive(Clone, Copy, Debug, PartialEq, Eq, Structural)]
pub enum Model {
    Fast,
    HighQuality,
}

/// The durable record of one extraction job.
pub struct Task {
    pub id: String,
    pub owner: String,
    pub model: Model,
    pub status: Status,
    pub input_location: String,
    pub output_location: Option<String>,
    pub error: Option<String>,
    pub created_at: u64,
    pub expires_at: Option<u64>,
}

/// Why a conditional status update was not applied.
#[derive(Clone, Copy, Debug, PartialEq, Eq, Structural)]
pub enum UpdateError {
    /// The requested step is not a transition of the lifecycle.
    InvalidTransition,
    /// `Succeeded` needs an output location and `Failed` an error message.
    MissingDetail,
    /// No task has that id.
    NotFound,
    /// The stored status is not the expected prior status.
    Conflict,
}


pub fn copy_opt_string(o: &Option<String>) -> (r: Option<String>)
    ensures
        r == *o,
{
    match o {
        Some(s) => Some(s.clone()),
        None => None,
    }
}

impl Task {
    /// A record is well formed when its input is stored and its result fields
    /// agree with its status.
    pub open spec fn wf(&self) -> bool {
        &&& self.input_location@.len() > 0
        &&& (self.output_location.is_some() <==> self.status == Status::Succeeded)
        &&& (self.error.is_some() <==> self.status == Status::Failed)
    }

    /// A fresh record, as it is inserted at creation.
    pub open spec fn is_fresh(&self) -> bool {
        &&& self.status == Status::Starting
        &&& self.output_location.is_none()
        &&& self.error.is_none()
    }

    pub fn copy(&self) -> (r: Task)
        ensures
            r == *self,
    {
        Task {
            id: self.id.clone(),
            owner: self.owner.clone(),
            model: self.model,
            status: self.status,
            input_location: self.input_location.clone(),
            output_location: copy_opt_string(&self.output_location),
            error: copy_opt_string(&self.error),
            created_at: self.created_at,
            expires_at: self.expires_at,
        }
    }

    /// The record after moving to `new_status`, with `detail` as the output
    /// location (on success) or the error message (on failure).
    pub open spec fn advanced(self, new_status: Status, detail: Option<String>) -> Task {
        Task {
            status: new_status,
            output_location: if new_status == Status::Succeeded { detail } else { None },
            error: if new_status == Status::Failed { detail } else { None },
            ..self
        }
    }
}

/// Checks made on an update request before any record is read.
pub open spec fn update_request_error(
    expected: Status,
    new_status: Status,
    detail: Option<String>,
) -> Option<UpdateError> {
    if !expected.can_transition_spec(new_status) {
        Some(UpdateError::InvalidTransition)
    } else if new_status != Status::Processing && detail.is_none() {
        Some(UpdateError::MissingDetail)
    } else {
        None
    }
}

/// Outcome of a conditional update of the record `current`.
pub open spec fn apply_update_spec(
    current: Task,
    expected: Status,
    new_status: Status,
    detail: Option<String>,
) -> Result<Task, UpdateError> {
    match update_request_error(expected, new_status, detail) {
        Some(e) => Err(e),
        None => if current.status != expected {
            Err(UpdateError::Conflict)
        } else {
            Ok(current.advanced(new_status, detail))
        },
    }
}

pub fn check_update_request(expected: Status, new_status: Status, detail: &Option<String>) -> (r:
    Option<UpdateError>)
    ensures
        r == update_request_error(expected, new_status, *detail),
{
    if !expected.can_transition(new_status) {
        Some(UpdateError::InvalidTransition)
    } else if new_status != Status::Processing && detail.is_none() {
        Some(UpdateError::MissingDetail)
    } else {
        None
    }
}

/// Compare-and-set on one record: applies the step only when the stored status
/// is `expected`.
pub fn apply_update(current: &Task, expected: Status, new_status: Status, detail: Option<String>) -> (r:
    Result<Task, UpdateError>)
    ensures
        r == apply_update_spec(*current, expected, new_status, detail),
{
    if let Some(e) = check_update_request(expected, new_status, &detail) {
        return Err(e);
    }
    if current.status != expected {
        return Err(UpdateError::Conflict);
    }
    let mut next = current.copy();
    next.status = new_status;
    match new_status {
        Status::Succeeded => {
            next.output_location = detail;
            next.error = None;
        },
        Status::Failed => {
            next.output_location = None;
            next.error = detail;
        },
        _ => {
            next.output_location = None;
            next.error = None;
        },
    }
    Ok(next)
}

/// A permitted update keeps a record well formed, and keeps its identity.
pub proof fn lemma_update_keeps_wf(
    current: Task,
    expected: Status,
    new_status: Status,
    detail: Option<String>,
)
    requires
        current.wf(),
        apply_update_spec(current, expected, new_status, detail) is Ok,
    ensures
        ({
            let next = apply_update_spec(current, expected, new_status, detail)->Ok_0;
            &&& next.wf()
            &&& next.id == current.id
            &&& next.owner == current.owner
            &&& next.input_location == current.input_location
            &&& current.status.rank() < next.status.rank()
        }),
{
}

} // verus!
