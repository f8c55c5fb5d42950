//! The error that every operation of the crate reports, and its mapping to a
//! transport status.

use crate::text::{append_decimal, append_signed_decimal, decimal, signed_decimal};
use vstd::prelude::*;

verus! {

/// The status reported when an error carries no usable status of its own.
pub const GENERIC_SERVER_ERROR: u16 = 500;

/// The status code carried by the errors that the crate itself raises.
pub const INTERNAL_STATUS: i32 = 500;

/// An error with an optional message and a numeric status code.
///
/// Three kinds are raised by this crate: a query that should have matched
/// exactly one row matched another number, a request that failed validation,
/// and a failure reported by the backing store, which is passed on unchanged.
#[derive(Debug, Clone, PartialEq, Eq)]
pub struct DefaultAppError {
    pub message: Option<String>,
    pub status_code: i32,
}

/// An error with its message as a sequence of characters.
pub struct DefaultAppErrorView {
    pub message: Option<Seq<char>>,
    pub status_code: i32,
}

impl View for DefaultAppError {
    type V = DefaultAppErrorView;

    open spec fn view(&self) -> DefaultAppErrorView {
        DefaultAppErrorView {
            message: match self.message {
                Some(text) => Some(text@),
                None => None,
            },
            status_code: self.status_code,
        }
    }
}

impl DeepView for DefaultAppError {
    type V = DefaultAppErrorView;

    open spec fn deep_view(&self) -> DefaultAppErrorView {
        self@
    }
}

impl DefaultAppErrorView {
    /// The message, or the stock text when there is none.
    pub open spec fn message(self) -> Seq<char> {
        match self.message {
            Some(text) => text,
            None => "Internal Server Error"@,
        }
    }

    /// Message and status code on two lines.
    pub open spec fn in_short(self) -> Seq<char> {
        "Error Message: "@ + self.message() + "\n Status Code: "@ + signed_decimal(
            self.status_code as int,
        )
    }

    /// The error for a query that matched `count` rows instead of one.
    pub open spec fn unexpected_results(count: nat) -> DefaultAppErrorView {
        DefaultAppErrorView {
            message: Some("Unexpected number of results: "@ + decimal(count)),
            status_code: INTERNAL_STATUS,
        }
    }

    /// The error for a write that created `count` rows instead of one.
    pub open spec fn unexpected_rows_created(count: nat) -> DefaultAppErrorView {
        DefaultAppErrorView {
            message: Some("Unexpected number of rows created: "@ + decimal(count)),
            status_code: INTERNAL_STATUS,
        }
    }

    /// The error for a search request that names neither a name nor a point.
    pub open spec fn invalid_search() -> DefaultAppErrorView {
        DefaultAppErrorView {
            message: Some("Invalid searching params"@),
            status_code: INTERNAL_STATUS,
        }
    }

    /// The error for two coordinate arrays of different lengths.
    pub open spec fn mismatched_arrays(lats: nat, longs: nat) -> DefaultAppErrorView {
        DefaultAppErrorView {
            message: Some(
                "Mismatched coordinate arrays: "@ + decimal(lats) + " latitudes, "@ + decimal(
                    longs,
                ) + " longitudes"@,
            ),
            status_code: INTERNAL_STATUS,
        }
    }

    /// The error for a reply of a kind that the pending request cannot have.
    pub open spec fn unexpected_reply() -> DefaultAppErrorView {
        DefaultAppErrorView {
            message: Some("Unexpected reply from the store"@),
            status_code: INTERNAL_STATUS,
        }
    }
}

/// The transport status for a numeric status code: the code itself where
/// it is a status from 100 to 999, the generic server error for every other
/// code.
pub open spec fn transport_status(status_code: i32) -> u16 {
    if 100 <= status_code <= 999 {
        status_code as u16
    } else {
        GENERIC_SERVER_ERROR
    }
}

/// Calls `StatusCode::from_u16` of the `http` crate, as `axum` exports it, and
/// reads the accepted status back with `as_u16`. Trusted: the outside function
/// accepts exactly the numbers from 100 to 999, and a status reports the number
/// it was made from.
#[verifier::external_body]
fn recognized_status(number: u16) -> (status: Option<u16>)
    ensures
        status == if 100 <= number <= 999 {
            Some(number)
        } else {
            None::<u16>
        },
{
    match axum::http::StatusCode::from_u16(number) {
        Ok(status) => Some(status.as_u16()),
        Err(_) => None,
    }
}

impl DefaultAppError {
    /// The message, or `Internal Server Error` when there is none.
    pub fn message(&self) -> (text: String)
        ensures
            text@ == self@.message(),
    {
        match &self.message {
            Some(text) => text.clone(),
            None => String::from_str("Internal Server Error"),
        }
    }

    /// The numeric status code.
    pub fn status_code(&self) -> (code: i32)
        ensures
            code == self.status_code,
    {
        self.status_code
    }

    /// Message and status code on two lines, for the body of an error reply.
    pub fn in_short(&self) -> (text: String)
        ensures
            text@ == self@.in_short(),
    {
        let mut text = String::from_str("Error Message: ");
        let message = self.message();
        text.append(message.as_str());
        text.append("\n Status Code: ");
        append_signed_decimal(&mut text, self.status_code as i64);
        text
    }

    /// A copy of this error.
    pub fn duplicate(&self) -> (copy: DefaultAppError)
        ensures
            copy@ == self@,
    {
        DefaultAppError {
            message: match &self.message {
                Some(text) => Some(text.clone()),
                None => None,
            },
            status_code: self.status_code,
        }
    }

    /// The error for a query that matched `count` rows instead of one.
    pub fn unexpected_results(count: usize) -> (error: DefaultAppError)
        ensures
            error@ == DefaultAppErrorView::unexpected_results(count as nat),
    {
        let mut text = String::from_str("Unexpected number of results: ");
        append_decimal(&mut text, count as u64);
        DefaultAppError { message: Some(text), status_code: INTERNAL_STATUS }
    }

    /// The error for a write that created `count` rows instead of one.
    pub fn unexpected_rows_created(count: u64) -> (error: DefaultAppError)
        ensures
            error@ == DefaultAppErrorView::unexpected_rows_created(count as nat),
    {
        let mut text = String::from_str("Unexpected number of rows created: ");
        append_decimal(&mut text, count);
        DefaultAppError { message: Some(text), status_code: INTERNAL_STATUS }
    }

    /// The error for a search request that names neither a name nor a point.
    pub fn invalid_search() -> (error: DefaultAppError)
        ensures
            error@ == DefaultAppErrorView::invalid_search(),
    {
        DefaultAppError {
            message: Some(String::from_str("Invalid searching params")),
            status_code: INTERNAL_STATUS,
        }
    }

    /// The error for two coordinate arrays of different lengths.
    pub fn mismatched_arrays(lats: usize, longs: usize) -> (error: DefaultAppError)
        ensures
            error@ == DefaultAppErrorView::mismatched_arrays(lats as nat, longs as nat),
    {
        let mut text = String::from_str("Mismatched coordinate arrays: ");
        append_decimal(&mut text, lats as u64);
        text.append(" latitudes, ");
        append_decimal(&mut text, longs as u64);
        text.append(" longitudes");
        DefaultAppError { message: Some(text), status_code: INTERNAL_STATUS }
    }

    /// The error for a reply of a kind that the pending request cannot have.
    pub fn unexpected_reply() -> (error: DefaultAppError)
        ensures
            error@ == DefaultAppErrorView::unexpected_reply(),
    {
        DefaultAppError {
            message: Some(String::from_str("Unexpected reply from the store")),
            status_code: INTERNAL_STATUS,
        }
    }
}

/// The transport status and the body with which `error` is reported: the
/// error's code where it is a status that the transport knows, the generic
/// server error for every other code, and the error in short as the body.
pub fn get_error_response(error: &DefaultAppError) -> (response: (u16, String))
    ensures
        response.0 == transport_status(error.status_code),
        response.1@ == error@.in_short(),
{
    let code = error.status_code;
    let status = if 100 <= code && code <= 999 {
        match recognized_status(code as u16) {
            Some(status) => status,
            None => GENERIC_SERVER_ERROR,
        }
    } else {
        GENERIC_SERVER_ERROR
    };
    (status, error.in_short())
}

} // verus!
