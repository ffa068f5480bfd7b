//! The envelope of the API's replies and how a reply becomes a result.
use vstd::prelude::*;
use crate::error::{api_error_to_error, ApiError, Error};

verus! {

/// A reply of the TradeStation API: either the expected payload or an error reply.
#[derive(Clone, Debug)]
pub enum ApiResponse<T> {
    /// The request succeeded and carries its payload.
    Success(T),
    /// The API answered with an error.
    Error(ApiError),
}

impl<T> ApiResponse<T> {
    /// The payload of a successful reply, or the library error for an error reply.
    pub fn into_result(self) -> (r: Result<T, Error>)
        ensures
            match self {
                ApiResponse::Success(t) => r == Ok::<T, Error>(t),
                ApiResponse::Error(e) => r == Err::<T, Error>(api_error_to_error(e)),
            },
    {
        match self {
            ApiResponse::Success(t) => Ok(t),
            ApiResponse::Error(e) => Err(Error::from_api_error(e)),
        }
    }
}

/// The outcome of a reply whose payload may be missing: the payload if there
/// is one, else the error the reply carried, else an unknown API error with
/// `fallback_message`.
pub open spec fn resolve_payload<T>(payload: Option<T>, error: Option<Error>, fallback_message: String) -> Result<T, Error> {
    match payload {
        Some(p) => Ok(p),
        None => match error {
            Some(e) => Err(e),
            None => Err(Error::UnknownTradeStationAPIError(fallback_message)),
        },
    }
}

/// Resolves a reply whose payload may be missing (see `resolve_payload`).
pub fn payload_or_error<T>(payload: Option<T>, error: Option<Error>, fallback_message: String) -> (r: Result<T, Error>)
    ensures
        r == resolve_payload(payload, error, fallback_message),
{
    match payload {
        Some(p) => Ok(p),
        None => match error {
            Some(e) => Err(e),
            None => Err(Error::UnknownTradeStationAPIError(fallback_message)),
        },
    }
}

/// The last element of a list, or `err` when the list is empty.
pub fn last_or<T>(items: Vec<T>, err: Error) -> (r: Result<T, Error>)
    ensures
        items@.len() > 0 ==> r == Ok::<T, Error>(items@.last()),
        items@.len() == 0 ==> r == Err::<T, Error>(err),
{
    let mut items = items;
    match items.pop() {
        Some(item) => Ok(item),
        None => Err(err),
    }
}

/// The error that a list of error replies stands for: the first of them, if any.
pub fn first_api_error(errors: Vec<ApiError>) -> (r: Option<Error>)
    ensures
        errors@.len() == 0 ==> r is None,
        errors@.len() > 0 ==> r == Some(api_error_to_error(errors@[0])),
{
    let mut errors = errors;
    if errors.len() == 0 {
        None
    } else {
        let first = errors.swap_remove(0);
        Some(Error::from_api_error(first))
    }
}

} // verus!
