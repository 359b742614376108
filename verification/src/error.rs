//! What can go wrong, and how it is reported at the request boundary.

use vstd::prelude::*;
use vstd::string::*;
use crate::text::{append_decimal, decimal};

verus! {

/// The failures of the gateway.
#[derive(Debug, Clone, PartialEq, Eq)]
pub enum GatewayError {
    /// The identity exchange failed or returned data that cannot be used.
    AuthFailure(String),
    /// A catalog or content call failed, or its answer had the wrong shape.
    RemoteError(String),
    /// The name of the requested key does not pass the configured pattern.
    Forbidden,
    /// The remote API has nothing under the path, or what it has is of the
    /// wrong kind for the operation.
    NotFound,
}

/// What came back from one call to the remote API.
#[derive(Debug, Clone, PartialEq, Eq)]
pub enum Fetched<T> {
    /// The call succeeded and gave this value.
    Found(T),
    /// The remote API reported that the path does not exist.
    Missing,
    /// The call failed, or its answer could not be read; the cause is kept.
    Failed(String),
}

/// What the status of an answer of the remote API stands for.
#[derive(Debug, Clone, Copy, PartialEq, Eq)]
pub enum StatusKind {
    /// The call succeeded: the body is what was asked for.
    Success,
    /// The remote API has nothing under the path.
    Missing,
    /// The call failed: the body describes an error and is no data.
    Failure,
}

/// What `status` stands for: 404 for a missing path, the statuses from 200
/// up to 299 for success, every other status for a failure.
pub open spec fn kind_of_status(status: u16) -> StatusKind {
    if status == 404 {
        StatusKind::Missing
    } else if 200 <= status < 300 {
        StatusKind::Success
    } else {
        StatusKind::Failure
    }
}

/// The cause reported for an answer with a failure status.
pub open spec fn status_cause(status: u16) -> Seq<char> {
    "the remote API answered with status "@ + decimal(status as nat)
}

/// Decides what the status of an answer stands for.
pub fn outcome_of_status(status: u16) -> (kind: StatusKind)
    ensures
        kind == kind_of_status(status),
{
    if status == 404 {
        StatusKind::Missing
    } else if 200 <= status && status < 300 {
        StatusKind::Success
    } else {
        StatusKind::Failure
    }
}

/// Sorts an answer of the remote API by its status, before anything is read
/// from it. Only an answer with a success status is handed on; with any
/// other status the answer is dropped, so that the body of an error is never
/// taken for data.
pub fn answer_of_status<T>(status: u16, answer: T) -> (fetched: Fetched<T>)
    ensures
        match kind_of_status(status) {
            StatusKind::Success => fetched == Fetched::Found(answer),
            StatusKind::Missing => fetched == Fetched::<T>::Missing,
            StatusKind::Failure => fetched matches Fetched::Failed(cause) && cause@
                == status_cause(status),
        },
{
    match outcome_of_status(status) {
        StatusKind::Success => Fetched::Found(answer),
        StatusKind::Missing => Fetched::Missing,
        StatusKind::Failure => {
            let mut cause = "the remote API answered with status ".to_owned();
            append_decimal(&mut cause, status as u64);
            Fetched::Failed(cause)
        },
    }
}

/// The status that stands for `error` at the request boundary.
pub open spec fn status_of(error: GatewayError) -> u16 {
    match error {
        GatewayError::AuthFailure(_) => 500,
        GatewayError::RemoteError(_) => 500,
        GatewayError::Forbidden => 403,
        GatewayError::NotFound => 404,
    }
}

/// The plain-text description of `error`: a fixed label, followed by the
/// cause where one was kept.
pub open spec fn description_of(error: GatewayError) -> Seq<char> {
    match error {
        GatewayError::AuthFailure(cause) => "authentication failed: "@ + cause@,
        GatewayError::RemoteError(cause) => "remote call failed: "@ + cause@,
        GatewayError::Forbidden => "forbidden"@,
        GatewayError::NotFound => "not found"@,
    }
}

impl GatewayError {
    /// The status sent for this error.
    pub fn status_code(&self) -> (code: u16)
        ensures
            code == status_of(*self),
    {
        match self {
            GatewayError::AuthFailure(_) => 500,
            GatewayError::RemoteError(_) => 500,
            GatewayError::Forbidden => 403,
            GatewayError::NotFound => 404,
        }
    }

    /// The plain text sent for this error.
    pub fn describe(&self) -> (text: String)
        ensures
            text@ == description_of(*self),
    {
        match self {
            GatewayError::AuthFailure(cause) => {
                let mut text = "authentication failed: ".to_owned();
                text.append(cause.as_str());
                text
            },
            GatewayError::RemoteError(cause) => {
                let mut text = "remote call failed: ".to_owned();
                text.append(cause.as_str());
                text
            },
            GatewayError::Forbidden => "forbidden".to_owned(),
            GatewayError::NotFound => "not found".to_owned(),
        }
    }
}

} // verus!
