//! The two error taxonomies of the crate: failures found while validating a
//! notification, and failures met while sending one.

use vstd::prelude::*;

verus! {

/// Error when a notification request is not valid according to Prowl's API
/// rules. Each variant carries the offending byte length.
#[derive(Clone, Copy, Debug, PartialEq, Eq, Structural)]
pub enum CreationError {
    /// URL length is longer than the maximum, 512.
    InvalidUrlLength(usize),
    /// Application length is longer than the maximum, 256.
    ApplicationLength(usize),
    /// Event length is longer than the maximum, 1024.
    EventLength(usize),
    /// Description length is longer than the maximum, 10000.
    DescriptionLength(usize),
}

/// Relied-on type of the reqwest crate: the answer to a dispatched HTTP
/// request. Carried through this crate untouched, for the caller to inspect.
#[verifier::external_type_specification]
#[verifier::external_body]
pub struct ExResponse(reqwest::Response);

/// Relied-on type of the reqwest crate: a transport-level failure raised
/// while sending a request. Carried through this crate untouched.
#[verifier::external_type_specification]
#[verifier::external_body]
pub struct ExReqwestError(reqwest::Error);

/// Relied-on type of std: the error raised by the formatting machinery.
/// Carried through this crate untouched.
#[verifier::external_type_specification]
#[verifier::external_body]
pub struct ExFmtError(std::fmt::Error);

/// The error returned when a notification is sent to the Prowl API.
#[derive(Debug)]
pub enum AddError {
    /// The response code from the Prowl API was not 200; carries the
    /// response for the caller to inspect.
    Api(reqwest::Response),
    /// The request could not be delivered; carries the transport error.
    Send(reqwest::Error),
    /// Assembling the request string failed. Request building inside this
    /// crate cannot fail, so no function here returns it; it remains for
    /// callers that assemble request text of their own.
    Format(std::fmt::Error),
}

impl From<std::fmt::Error> for AddError {
    fn from(error: std::fmt::Error) -> (r: Self) {
        AddError::Format(error)
    }
}

impl vstd::std_specs::convert::FromSpecImpl<std::fmt::Error> for AddError {
    open spec fn obeys_from_spec() -> bool {
        true
    }

    open spec fn from_spec(error: std::fmt::Error) -> Self {
        AddError::Format(error)
    }
}

impl From<reqwest::Error> for AddError {
    fn from(error: reqwest::Error) -> (r: Self) {
        AddError::Send(error)
    }
}

impl vstd::std_specs::convert::FromSpecImpl<reqwest::Error> for AddError {
    open spec fn obeys_from_spec() -> bool {
        true
    }

    open spec fn from_spec(error: reqwest::Error) -> Self {
        AddError::Send(error)
    }
}

/// Decides the outcome of a dispatched request from its response status:
/// 200 is success; any other status is an `Api` error carrying the response
/// for the caller to inspect.
pub fn evaluate_response(status: u16, response: reqwest::Response) -> (result: Result<
    (),
    AddError,
>)
    ensures
        status == 200 <==> result is Ok,
        result matches Err(e) ==> e == AddError::Api(response),
{
    if status == 200 {
        Ok(())
    } else {
        Err(AddError::Api(response))
    }
}

} // verus!
