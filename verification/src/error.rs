//! The error type of the library and its reading of the API's error replies.
use vstd::prelude::*;
use crate::text::{concat_text, text_is};

verus! {

/// An error reply of the TradeStation API: an error kind and a message.
#[derive(Clone, Debug)]
pub struct ApiError {
    /// The kind of error, such as `"BadRequest"`.
    pub error: String,
    /// The human readable message that came with the error.
    pub message: String,
}

/// TradeStation API Client Error.
///
/// Errors that originate in an outside library (the HTTP client, the JSON
/// decoder, a boxed error) carry that error's debug text, which is what
/// their message shows.
#[derive(Debug)]
pub enum Error {
    /// Issue with your current `Token` the `Client` is using.
    InvalidToken,
    /// Issue building a `Token`.
    TokenConfig(String),
    /// An `Account` was not found for a given account id.
    AccountNotFound,
    /// A `Position` was not found for a given position id (position id, account id).
    PositionNotFound(String, String),
    /// An HTTP request error.
    Request(String),
    /// An error from elsewhere, boxed.
    BoxedError(String),
    /// Error while in stream.
    StreamIssue(String),
    /// Use this to stop a stream connection.
    StopStream,
    /// Error with JSON serializing or deserializing.
    Json(String),
    /// No symbol set when one was required.
    SymbolNotSet,
    /// Account Id not set when one was required.
    AccountIdNotSet,
    /// Trade Action not set when one was required.
    TradeActionNotSet,
    /// Time In Force not set when one was required.
    TimeInForceNotSet,
    /// Order Type not set when one was required.
    OrderTypeNotSet,
    /// Quantity not set when one was required.
    QuantityNotSet,
    /// No Option legs set when they were required.
    OptionLegsNotSet,
    /// Order Requests not set when they're required.
    OrderRequestsNotSet,
    /// Order Group Type not set when it's required.
    OrderGroupTypeNotSet,
    /// The client builder reached `build` without an API environment.
    EnvironmentNotSet,
    /// A URL could not be formed.
    InvalidUrl,
    /// TradeStation API Error for a bad request.
    BadRequest(String),
    /// TradeStation API Error for an unauthorized request.
    Unauthorized(String),
    /// TradeStation API Error for a forbidden request.
    Forbidden(String),
    /// TradeStation API Error for too many requests.
    TooManyRequests(String),
    /// TradeStation API Error for an internal server error.
    InternalServerError(String),
    /// TradeStation API Error for a gateway timeout.
    GatewayTimeout(String),
    /// TradeStation API Error for an unknown error.
    UnknownTradeStationAPIError(String),
}

/// The library error that an API error reply stands for: the known kinds map
/// to their own variant, every other kind to `UnknownTradeStationAPIError`;
/// the message is carried over.
pub open spec fn api_error_to_error(api_err: ApiError) -> Error {
    let kind = api_err.error@;
    let msg = api_err.message;
    if kind == "BadRequest"@ {
        Error::BadRequest(msg)
    } else if kind == "Unauthorized"@ {
        Error::Unauthorized(msg)
    } else if kind == "Forbidden"@ {
        Error::Forbidden(msg)
    } else if kind == "TooManyRequests"@ {
        Error::TooManyRequests(msg)
    } else if kind == "InternalServerError"@ {
        Error::InternalServerError(msg)
    } else if kind == "GatewayTimeout"@ {
        Error::GatewayTimeout(msg)
    } else {
        Error::UnknownTradeStationAPIError(msg)
    }
}

/// Whether the error is one that the TradeStation API itself reported.
pub open spec fn is_api_reported(e: Error) -> bool {
    match e {
        Error::BadRequest(_) | Error::Unauthorized(_) | Error::Forbidden(_)
        | Error::TooManyRequests(_) | Error::InternalServerError(_) | Error::GatewayTimeout(_)
        | Error::UnknownTradeStationAPIError(_) => true,
        _ => false,
    }
}

/// The message that an API-reported error carries.
pub open spec fn api_message(e: Error) -> String {
    match e {
        Error::BadRequest(m) => m,
        Error::Unauthorized(m) => m,
        Error::Forbidden(m) => m,
        Error::TooManyRequests(m) => m,
        Error::InternalServerError(m) => m,
        Error::GatewayTimeout(m) => m,
        Error::UnknownTradeStationAPIError(m) => m,
        _ => arbitrary(),
    }
}

/// The human readable text of an error.
pub open spec fn error_text(e: Error) -> Seq<char> {
    match e {
        Error::InvalidToken => "Invalid `Token` may be expired, bad, or `None`"@,
        Error::TokenConfig(m) => "Error building `Token`: "@ + m@,
        Error::AccountNotFound => "Couldn't find an account registered to you with that id"@,
        Error::PositionNotFound(p, a) => "Couldn't find a position with id: "@ + p@
            + " in account with id: "@ + a@,
        Error::Request(m) => m@,
        Error::BoxedError(m) => m@,
        Error::StreamIssue(m) => "Issue during stream: "@ + m@,
        Error::StopStream => "WARNING: You've stopped a stream!"@,
        Error::Json(m) => "JSON Error: "@ + m@,
        Error::SymbolNotSet => "ERROR: You need to set the symbol."@,
        Error::OptionLegsNotSet => "ERROR: You need to set the option legs."@,
        Error::BadRequest(m) => "TradeStation API ERROR: "@ + m@,
        Error::Unauthorized(m) => "TradeStation API ERROR: "@ + m@,
        Error::Forbidden(m) => "TradeStation API ERROR: "@ + m@,
        Error::TooManyRequests(m) => "TradeStation API ERROR: "@ + m@,
        Error::InternalServerError(m) => "TradeStation API ERROR: "@ + m@,
        Error::GatewayTimeout(m) => "TradeStation API ERROR: "@ + m@,
        Error::UnknownTradeStationAPIError(m) => "Unknown TradeStation API ERROR: "@ + m@
            + ".\n Sumbit an issue, so this can be handled: https://github.com/antonio-hickey/tradestation-rs"@,
        Error::AccountIdNotSet => "ERROR: account_id not set when it's required."@,
        Error::TradeActionNotSet => "ERROR: trade_action not set when it's required."@,
        Error::OrderTypeNotSet => "ERROR: order_type not set when it's required."@,
        Error::TimeInForceNotSet => "ERROR: time_in_force not set when it's required."@,
        Error::QuantityNotSet => "ERROR: quantity not set when it's required."@,
        Error::OrderRequestsNotSet => "ERROR: order requests not set when they're required."@,
        Error::OrderGroupTypeNotSet => "ERROR: order group type not set when it's required."@,
        Error::EnvironmentNotSet => "ERROR: environment not set when it's required."@,
        Error::InvalidUrl => "ERROR: the URL could not be formed."@,
    }
}

/// Every error reply of the API becomes an error that the API reported,
/// carrying the reply's message unchanged.
pub proof fn law_api_error_keeps_message(api_err: ApiError)
    ensures
        is_api_reported(api_error_to_error(api_err)),
        api_message(api_error_to_error(api_err)) == api_err.message,
{
}

impl Error {
    /// Convert an error reply of the TradeStation API into an `Error`.
    pub fn from_api_error(api_err: ApiError) -> (r: Error)
        ensures
            r == api_error_to_error(api_err),
    {
        if text_is(&api_err.error, "BadRequest") {
            Error::BadRequest(api_err.message)
        } else if text_is(&api_err.error, "Unauthorized") {
            Error::Unauthorized(api_err.message)
        } else if text_is(&api_err.error, "Forbidden") {
            Error::Forbidden(api_err.message)
        } else if text_is(&api_err.error, "TooManyRequests") {
            Error::TooManyRequests(api_err.message)
        } else if text_is(&api_err.error, "InternalServerError") {
            Error::InternalServerError(api_err.message)
        } else if text_is(&api_err.error, "GatewayTimeout") {
            Error::GatewayTimeout(api_err.message)
        } else {
            Error::UnknownTradeStationAPIError(api_err.message)
        }
    }

    /// Whether this error is the request to stop a stream.
    pub fn is_stop_stream(&self) -> (b: bool)
        ensures
            b == (*self is StopStream),
    {
        match self {
            Error::StopStream => true,
            _ => false,
        }
    }

    /// The human readable text of the error.
    pub fn message(&self) -> (r: String)
        ensures
            r@ == error_text(*self),
    {
        match self {
            Error::InvalidToken => String::from_str("Invalid `Token` may be expired, bad, or `None`"),
            Error::TokenConfig(m) => concat_text("Error building `Token`: ", m.as_str()),
            Error::AccountNotFound => String::from_str(
                "Couldn't find an account registered to you with that id",
            ),
            Error::PositionNotFound(p, a) => {
                let mut out = concat_text("Couldn't find a position with id: ", p.as_str());
                out.append(" in account with id: ");
                out.append(a.as_str());
                out
            },
            Error::Request(m) => m.clone(),
            Error::BoxedError(m) => m.clone(),
            Error::StreamIssue(m) => concat_text("Issue during stream: ", m.as_str()),
            Error::StopStream => String::from_str("WARNING: You've stopped a stream!"),
            Error::Json(m) => concat_text("JSON Error: ", m.as_str()),
            Error::SymbolNotSet => String::from_str("ERROR: You need to set the symbol."),
            Error::OptionLegsNotSet => String::from_str("ERROR: You need to set the option legs."),
            Error::BadRequest(m) => concat_text("TradeStation API ERROR: ", m.as_str()),
            Error::Unauthorized(m) => concat_text("TradeStation API ERROR: ", m.as_str()),
            Error::Forbidden(m) => concat_text("TradeStation API ERROR: ", m.as_str()),
            Error::TooManyRequests(m) => concat_text("TradeStation API ERROR: ", m.as_str()),
            Error::InternalServerError(m) => concat_text("TradeStation API ERROR: ", m.as_str()),
            Error::GatewayTimeout(m) => concat_text("TradeStation API ERROR: ", m.as_str()),
            Error::UnknownTradeStationAPIError(m) => {
                let mut out = concat_text("Unknown TradeStation API ERROR: ", m.as_str());
                out.append(
                    ".\n Sumbit an issue, so this can be handled: https://github.com/antonio-hickey/tradestation-rs",
                );
                out
            },
            Error::AccountIdNotSet => String::from_str(
                "ERROR: account_id not set when it's required.",
            ),
            Error::TradeActionNotSet => String::from_str(
                "ERROR: trade_action not set when it's required.",
            ),
            Error::OrderTypeNotSet => String::from_str(
                "ERROR: order_type not set when it's required.",
            ),
            Error::TimeInForceNotSet => String::from_str(
                "ERROR: time_in_force not set when it's required.",
            ),
            Error::QuantityNotSet => String::from_str("ERROR: quantity not set when it's required."),
            Error::OrderRequestsNotSet => String::from_str(
                "ERROR: order requests not set when they're required.",
            ),
            Error::OrderGroupTypeNotSet => String::from_str(
                "ERROR: order group type not set when it's required.",
            ),
            Error::EnvironmentNotSet => String::from_str(
                "ERROR: environment not set when it's required.",
            ),
            Error::InvalidUrl => String::from_str("ERROR: the URL could not be formed."),
        }
    }
}

} // verus!
