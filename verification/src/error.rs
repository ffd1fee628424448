//! The errors that the library reports.
use vstd::prelude::*;

use crate::text::opt_text;

verus! {

/// A kind of failure that callers tell apart without reading the text.
#[derive(Clone, Copy, Debug, PartialEq, Eq, Structural)]
pub enum ErrorCode {
    /// A connection could not be made.
    ConnectionFailed,
}

/// What went wrong.
#[derive(Clone, Debug)]
pub enum SdkError {
    /// A setting is missing or cannot be used.
    Configuration { message: String, field: Option<String> },
    /// A model's service answered with an error.
    LmApiError {
        status: u16,
        provider: String,
        message: String,
        request_id: Option<String>,
    },
    /// An operation took too long.
    Timeout { message: String, operation: String, duration_ms: Option<u64> },
    /// A connection could not be made.
    Connection { message: String, code: ErrorCode },
    /// The library could not go on.
    Internal(String),
    /// Anything else.
    Other(String),
}

/// What an `SdkError` says.
pub enum ErrorView {
    Configuration { message: Seq<char>, field: Option<Seq<char>> },
    LmApiError {
        status: u16,
        provider: Seq<char>,
        message: Seq<char>,
        request_id: Option<Seq<char>>,
    },
    Timeout { message: Seq<char>, operation: Seq<char>, duration_ms: Option<u64> },
    Connection { message: Seq<char>, code: ErrorCode },
    Internal(Seq<char>),
    Other(Seq<char>),
}

impl View for SdkError {
    type V = ErrorView;

    open spec fn view(&self) -> ErrorView {
        match self {
            SdkError::Configuration { message, field } => ErrorView::Configuration {
                message: message@,
                field: opt_text(*field),
            },
            SdkError::LmApiError { status, provider, message, request_id } => ErrorView::LmApiError {
                status: *status,
                provider: provider@,
                message: message@,
                request_id: opt_text(*request_id),
            },
            SdkError::Timeout { message, operation, duration_ms } => ErrorView::Timeout {
                message: message@,
                operation: operation@,
                duration_ms: *duration_ms,
            },
            SdkError::Connection { message, code } => ErrorView::Connection {
                message: message@,
                code: *code,
            },
            SdkError::Internal(message) => ErrorView::Internal(message@),
            SdkError::Other(message) => ErrorView::Other(message@),
        }
    }
}

/// Whether a service that answers with this status may answer otherwise later.
pub open spec fn retryable_status(status: u16) -> bool {
    status == 408 || status == 429 || status == 500 || status == 502 || status == 503 || status
        == 504 || status == 529
}

impl ErrorView {
    /// Whether the same request may succeed later.
    pub open spec fn retryable(self) -> bool {
        match self {
            ErrorView::LmApiError { status, .. } => retryable_status(status),
            ErrorView::Timeout { .. } => true,
            ErrorView::Connection { .. } => true,
            _ => false,
        }
    }

    /// The text of the error.
    pub open spec fn message(self) -> Seq<char> {
        match self {
            ErrorView::Configuration { message, .. } => message,
            ErrorView::LmApiError { message, .. } => message,
            ErrorView::Timeout { message, .. } => message,
            ErrorView::Connection { message, .. } => message,
            ErrorView::Internal(message) => message,
            ErrorView::Other(message) => message,
        }
    }
}

impl SdkError {
    /// Whether the same request may succeed later: after a timeout, after a failed
    /// connection, and after an answer with a transient status.
    pub fn is_retryable(&self) -> (r: bool)
        ensures
            r == self@.retryable(),
    {
        match self {
            SdkError::LmApiError { status, .. } => {
                let s: u16 = *status;
                s == 408 || s == 429 || s == 500 || s == 502 || s == 503 || s == 504 || s == 529
            },
            SdkError::Timeout { .. } => true,
            SdkError::Connection { .. } => true,
            _ => false,
        }
    }

    /// The text of the error.
    pub fn message(&self) -> (r: String)
        ensures
            r@ == self@.message(),
    {
        match self {
            SdkError::Configuration { message, .. } => message.clone(),
            SdkError::LmApiError { message, .. } => message.clone(),
            SdkError::Timeout { message, .. } => message.clone(),
            SdkError::Connection { message, .. } => message.clone(),
            SdkError::Internal(message) => message.clone(),
            SdkError::Other(message) => message.clone(),
        }
    }
}

/// A setting `field` cannot be used.
pub open spec fn bad_setting(message: Seq<char>, field: Seq<char>) -> ErrorView {
    ErrorView::Configuration { message, field: Some(field) }
}

/// A setting `field` cannot be used.
pub fn setting_error(message: String, field: &str) -> (r: SdkError)
    ensures
        r@ == bad_setting(message@, field@),
{
    SdkError::Configuration { message, field: Some(field.to_owned()) }
}

/// An error with nothing but a text.
pub fn other_error(message: &str) -> (r: SdkError)
    ensures
        r@ == ErrorView::Other(message@),
{
    SdkError::Other(message.to_owned())
}

/// A service is asked again after the answers that are transient by their status: it was
/// too slow, it was asked too often, or it failed. After any other status it is not.
pub proof fn transient_answers_are_tried_again(error: ErrorView)
    ensures
        error matches ErrorView::LmApiError { status, .. } ==> {
            &&& status == 408 || status == 429 || status == 500 || status == 502 || status == 503
                || status == 504 || status == 529 ==> error.retryable()
            &&& error.retryable() ==> status == 408 || status == 429 || status == 500 || status
                == 502 || status == 503 || status == 504 || status == 529
        },
        error is Timeout ==> error.retryable(),
        error is Connection ==> error.retryable(),
        error is Configuration || error is Internal || error is Other ==> !error.retryable(),
{
}

/// No success, no redirection and no refusal of a request as such is tried again.
pub proof fn refusals_are_final(status: u16)
    ensures
        status < 400 ==> !retryable_status(status),
        400 <= status <= 407 ==> !retryable_status(status),
        409 <= status <= 428 ==> !retryable_status(status),
        430 <= status < 500 ==> !retryable_status(status),
        retryable_status(429) && retryable_status(408),
        500 <= status <= 504 && status != 501 ==> retryable_status(status),
{
}

/// An error says what it was made with.
pub proof fn errors_say_what_they_were_made_with(error: SdkError)
    ensures
        error matches SdkError::LmApiError { status, provider, message, request_id } ==> error@
            == (ErrorView::LmApiError {
            status,
            provider: provider@,
            message: message@,
            request_id: opt_text(request_id),
        }) && error@.message() == message@,
        error matches SdkError::Configuration { message, .. } ==> error@.message() == message@,
        error matches SdkError::Timeout { message, .. } ==> error@.message() == message@,
        error matches SdkError::Connection { message, .. } ==> error@.message() == message@,
        error matches SdkError::Internal(message) ==> error@.message() == message@,
        error matches SdkError::Other(message) ==> error@.message() == message@,
        forall|message: Seq<char>, field: Seq<char>|
            #[trigger] bad_setting(message, field) == (ErrorView::Configuration {
                message,
                field: Some(field),
            }),
{
}

} // verus!
