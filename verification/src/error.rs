//! The failures that an operation can end in.

use crate::response::{Response, STATUS_OK};
use crate::uri::UriError;
use hyper::error::ParseError;
use std::str::Utf8Error;
use vstd::prelude::*;
use vstd::string::*;
use vstd::utf8::{decode_utf8, valid_utf8};

verus! {

broadcast use vstd::string::group_string_axioms;

#[verifier::external_type_specification]
#[verifier::external_body]
pub struct ExUtf8Error(std::str::Utf8Error);

/// Why a reply with a success status could not be turned into a value.
#[derive(Clone, Copy, Debug, PartialEq, Eq, Structural)]
pub enum DecodeFailure {
    /// The body is not JSON, or a payload cannot be written as JSON.
    Json,
    /// The JSON does not have the shape of the record that was asked for: a
    /// required field is missing, or a value has the wrong type.
    Schema,
    /// A registration payload names a field that the schema does not know.
    UnknownField,
    /// The value of a key-value entry is not base64.
    Base64,
}

/// Whether a result is the success with the given value.
pub open spec fn gives<T, E>(result: std::result::Result<T, E>, value: T) -> bool {
    result == Ok::<T, E>(value)
}

/// Whether a result is the failure with the given error.
pub open spec fn refuses<T, E>(result: std::result::Result<T, E>, error: E) -> bool {
    result == Err::<T, E>(error)
}

/// Result type of the operations.
pub type Result<T> = std::result::Result<T, Error>;

/// Everything that can go wrong between asking for an operation and holding its result.
#[derive(Debug)]
pub enum Error {
    /// The HTTP layer failed to carry the request or the reply. The text is the
    /// transport's own account of what went wrong.
    Http(String),
    /// No request URL can be built from the address and the path.
    Uri(UriError),
    /// Bytes that had to be text are not UTF-8.
    Utf8(Utf8Error),
    /// The daemon answered with a failure status. The text is the status's
    /// canonical reason, a colon and a space, and the body of the reply.
    Consul(String),
    /// The daemon answered with success, but the body cannot be decoded.
    Decode(DecodeFailure),
}

/// The mathematical content of an `Error`.
pub enum ErrorView {
    Http(Seq<char>),
    Uri(UriError),
    Utf8(Utf8Error),
    Consul(Seq<char>),
    Decode(DecodeFailure),
}

impl View for Error {
    type V = ErrorView;

    open spec fn view(&self) -> ErrorView {
        match self {
            Error::Http(text) => ErrorView::Http(text@),
            Error::Uri(e) => ErrorView::Uri(*e),
            Error::Utf8(e) => ErrorView::Utf8(*e),
            Error::Consul(text) => ErrorView::Consul(text@),
            Error::Decode(e) => ErrorView::Decode(*e),
        }
    }
}

/// The canonical reason phrase of a status code, where it has one.
pub uninterp spec fn reason_phrase(status: u16) -> Option<Seq<char>>;

/// The error that UTF-8 validation reports for bytes that are not valid UTF-8.
pub uninterp spec fn utf8_fault(bytes: Seq<u8>) -> Utf8Error;

/// Calls `StatusCode::from_u16` and `StatusCode::canonical_reason` of `hyper`:
/// the phrase that its table of registered status codes gives the code, `None`
/// for a code that the table does not hold. The phrase depends on the code
/// alone, and `reason_phrase` names it.
#[verifier::external_body]
pub(crate) fn canonical_reason(status: u16) -> (r: Option<&'static str>)
    ensures
        match r {
            Some(phrase) => reason_phrase(status) == Some(phrase@),
            None => reason_phrase(status) is None,
        },
{
    hyper::status::StatusCode::from_u16(status).canonical_reason()
}

/// Calls `std::str::from_utf8`. It succeeds exactly when the bytes are valid
/// UTF-8, and the text is then the one that they encode. Otherwise it gives the
/// validation error, which depends on the bytes alone: `utf8_fault` names it.
#[verifier::external_body]
pub(crate) fn utf8_text(bytes: &[u8]) -> (r: std::result::Result<&str, Utf8Error>)
    ensures
        match r {
            Ok(text) => valid_utf8(bytes@) && text@ == decode_utf8(bytes@),
            Err(e) => !valid_utf8(bytes@) && e == utf8_fault(bytes@),
        },
{
    std::str::from_utf8(bytes)
}

/// The text of a failure: the reason, a colon and a space, and the body. Where
/// the status has no canonical reason, a placeholder stands for it.
pub open spec fn failure_text(reason: Option<Seq<char>>, body: Seq<char>) -> Seq<char> {
    match reason {
        Some(phrase) => phrase + ": "@ + body,
        None => "<unknown status code>"@ + ": "@ + body,
    }
}

/// The failure that a reply with the given status and body stands for.
pub open spec fn failure(status: u16, body: Seq<u8>) -> ErrorView {
    if valid_utf8(body) {
        ErrorView::Consul(failure_text(reason_phrase(status), decode_utf8(body)))
    } else {
        ErrorView::Utf8(utf8_fault(body))
    }
}

/// The text of an optional text.
pub open spec fn phrase_view(phrase: Option<&str>) -> Option<Seq<char>> {
    match phrase {
        Some(phrase) => Some(phrase@),
        None => None,
    }
}

/// Puts the message of a failure together: the reason, a colon and a space,
/// and the body.
pub fn failure_message(reason: Option<&str>, body: &str) -> (text: String)
    ensures
        text@ == failure_text(phrase_view(reason), body@),
{
    let reason = match reason {
        Some(phrase) => phrase,
        None => "<unknown status code>",
    };
    String::from_str(reason).concat(": ").concat(body)
}

/// Turns a reply that the daemon sent with a failure status into an error: the
/// canonical reason of the status and the body text, or a UTF-8 error where the
/// body is not text. It is meant for replies that do not carry the success
/// status.
pub fn consul_error(resp: &Response) -> (e: Error)
    requires
        resp.status != STATUS_OK,
    ensures
        e@ == failure(resp.status, resp.body@),
{
    match utf8_text(resp.body.as_slice()) {
        Err(e) => Error::Utf8(e),
        Ok(text) => Error::Consul(failure_message(canonical_reason(resp.status), text)),
    }
}

/// What a URL parse error says of itself.
pub uninterp spec fn parse_error_text(e: ParseError) -> Seq<char>;

/// What a UTF-8 validation error says of itself.
pub uninterp spec fn utf8_error_text(e: Utf8Error) -> Seq<char>;

/// Formats a `url::ParseError` with its `Display` impl. The text depends on the
/// error alone, and `parse_error_text` names it.
#[verifier::external_body]
pub(crate) fn describe_parse_error(e: &ParseError) -> (text: String)
    ensures
        text@ == parse_error_text(*e),
{
    format!("{}", e)
}

/// Formats a `std::str::Utf8Error` with its `Display` impl. The text depends on
/// the error alone, and `utf8_error_text` names it.
#[verifier::external_body]
pub(crate) fn describe_utf8_error(e: &Utf8Error) -> (text: String)
    ensures
        text@ == utf8_error_text(*e),
{
    format!("{}", e)
}

/// What a decode failure says of itself.
pub open spec fn decode_failure_text(failure: DecodeFailure) -> Seq<char> {
    match failure {
        DecodeFailure::Json => "not JSON"@,
        DecodeFailure::Schema => "JSON of another shape than the record"@,
        DecodeFailure::UnknownField => "unknown field"@,
        DecodeFailure::Base64 => "value is not base64"@,
    }
}

/// The message of an error: what kind it is of, a colon, and the detail.
pub open spec fn message_of(e: ErrorView) -> Seq<char> {
    match e {
        ErrorView::Http(text) => "Http error: "@ + text,
        ErrorView::Uri(UriError::Parse(e)) => "Uri parse error: "@ + parse_error_text(e),
        ErrorView::Uri(UriError::TooLong) => "Uri parse error: "@
            + "URLs more than 4 GB are not supported"@,
        ErrorView::Utf8(e) => "UTF8 error: "@ + utf8_error_text(e),
        ErrorView::Consul(text) => "Consul response: "@ + text,
        ErrorView::Decode(failure) => "Decode error: "@ + decode_failure_text(failure),
    }
}

impl DecodeFailure {
    /// What the failure says of itself.
    pub fn text(&self) -> (text: &'static str)
        ensures
            text@ == decode_failure_text(*self),
    {
        match self {
            DecodeFailure::Json => "not JSON",
            DecodeFailure::Schema => "JSON of another shape than the record",
            DecodeFailure::UnknownField => "unknown field",
            DecodeFailure::Base64 => "value is not base64",
        }
    }
}

impl Error {
    /// The message of the error, as it is shown to a reader.
    pub fn message(&self) -> (text: String)
        ensures
            text@ == message_of(self@),
    {
        match self {
            Error::Http(text) => String::from_str("Http error: ").concat(text.as_str()),
            Error::Uri(UriError::Parse(e)) => String::from_str("Uri parse error: ").concat(
                describe_parse_error(e).as_str(),
            ),
            Error::Uri(UriError::TooLong) => String::from_str("Uri parse error: ").concat(
                "URLs more than 4 GB are not supported",
            ),
            Error::Utf8(e) => String::from_str("UTF8 error: ").concat(
                describe_utf8_error(e).as_str(),
            ),
            Error::Consul(text) => String::from_str("Consul response: ").concat(text.as_str()),
            Error::Decode(failure) => String::from_str("Decode error: ").concat(failure.text()),
        }
    }
}

impl From<ParseError> for Error {
    fn from(err: ParseError) -> (e: Error) {
        Error::Uri(UriError::Parse(err))
    }
}

impl vstd::std_specs::convert::FromSpecImpl<ParseError> for Error {
    open spec fn obeys_from_spec() -> bool {
        true
    }

    open spec fn from_spec(err: ParseError) -> Error {
        Error::Uri(UriError::Parse(err))
    }
}

impl From<UriError> for Error {
    fn from(err: UriError) -> (e: Error) {
        Error::Uri(err)
    }
}

impl vstd::std_specs::convert::FromSpecImpl<UriError> for Error {
    open spec fn obeys_from_spec() -> bool {
        true
    }

    open spec fn from_spec(err: UriError) -> Error {
        Error::Uri(err)
    }
}

impl From<Utf8Error> for Error {
    fn from(err: Utf8Error) -> (e: Error) {
        Error::Utf8(err)
    }
}

impl vstd::std_specs::convert::FromSpecImpl<Utf8Error> for Error {
    open spec fn obeys_from_spec() -> bool {
        true
    }

    open spec fn from_spec(err: Utf8Error) -> Error {
        Error::Utf8(err)
    }
}

impl From<DecodeFailure> for Error {
    fn from(err: DecodeFailure) -> (e: Error) {
        Error::Decode(err)
    }
}

impl vstd::std_specs::convert::FromSpecImpl<DecodeFailure> for Error {
    open spec fn obeys_from_spec() -> bool {
        true
    }

    open spec fn from_spec(err: DecodeFailure) -> Error {
        Error::Decode(err)
    }
}

} // verus!
