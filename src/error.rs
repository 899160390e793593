//! Error kinds, their messages, and the conversions from the failures of
//! the key-value store, I/O, the JSON codec, the URL parser, the request
//! layer and the expression evaluator.

use vstd::prelude::*;
use vstd::string::{to_string_from_display_ensures, StringExecFns};
use serde_json::Error as JsonError;
use std::io::Error as IoError;

verus! {

/// Declares rkv's store failure, carried opaque in `RkvError`.
#[verifier::external_type_specification]
#[verifier::external_body]
pub struct ExStoreError(rkv::StoreError);

/// Declares std's I/O failure, carried opaque in `IOError`.
#[verifier::external_type_specification]
#[verifier::external_body]
pub struct ExIoError(IoError);

/// Declares serde_json's codec failure, carried opaque in `JSONError`.
#[verifier::external_type_specification]
#[verifier::external_body]
pub struct ExJsonError(JsonError);

/// Declares url's parse failure, carried opaque in `UrlParseError`.
#[verifier::external_type_specification]
#[verifier::external_body]
pub struct ExUrlParseError(url::ParseError);

/// Declares jexl_eval's evaluation failure, which converts to `EvaluationError`.
#[verifier::external_type_specification]
#[verifier::external_body]
pub struct ExEvaluationError<'a>(jexl_eval::error::EvaluationError<'a>);

/// A failed outbound request, before any response came back, carried as
/// the request layer's own description of what went wrong.
#[derive(Debug)]
pub struct RequestFailure {
    pub message: String,
}

/// Every failure that the library reports.
#[derive(Debug)]
pub enum Error {
    /// Stored data failed validation on load.
    InvalidPersistedData,
    /// A key-value store operation failed.
    RkvError(rkv::StoreError),
    /// A filesystem or stream operation failed.
    IOError(IoError),
    /// Serializing or deserializing JSON failed.
    JSONError(JsonError),
    /// The expression evaluator reported a failure.
    EvaluationError,
    /// An expression was not valid.
    InvalidExpression,
    /// A string did not parse as a URL.
    UrlParseError(url::ParseError),
    /// An outbound request failed before a response came.
    RequestError(RequestFailure),
    /// The remote peer responded with an error, given as text.
    ResponseError(String),
}

/// A success value of type `T`, or an error, by default an [`Error`].
pub type Result<T, E = Error> = std::result::Result<T, E>;

impl Error {
    /// Whether the kind carries a value whose own text the message repeats.
    pub open spec fn has_payload(&self) -> bool {
        match self {
            Error::InvalidPersistedData | Error::EvaluationError | Error::InvalidExpression => false,
            _ => true,
        }
    }

    /// The fixed part of the message: the whole message of a kind without a
    /// payload, and what precedes the payload's text otherwise.
    pub open spec fn label(&self) -> Seq<char> {
        match self {
            Error::InvalidPersistedData => "Invalid persisted data"@,
            Error::RkvError(_) => "Rkv error: "@,
            Error::IOError(_) => "IO error: "@,
            Error::JSONError(_) => "JSON Error: "@,
            Error::EvaluationError => "EvaluationError"@,
            Error::InvalidExpression => "Invalid Expression"@,
            Error::UrlParseError(_) => "Error parsing Url: "@,
            Error::RequestError(_) => "Error sending request: "@,
            Error::ResponseError(_) => "Server responded with an error: "@,
        }
    }

    /// `d` is a text that displaying the payload gives.
    pub open spec fn payload_shows(&self, d: Seq<char>) -> bool {
        match *self {
            Error::RkvError(e) => displays::<rkv::StoreError>(&e, d),
            Error::IOError(e) => displays::<IoError>(&e, d),
            Error::JSONError(e) => displays::<JsonError>(&e, d),
            Error::UrlParseError(e) => displays::<url::ParseError>(&e, d),
            Error::RequestError(f) => d == f.message@,
            Error::ResponseError(m) => d == m@,
            _ => false,
        }
    }

    /// `text` is a message of this error: the label, followed by the
    /// payload's text where there is a payload.
    pub open spec fn shows(&self, text: Seq<char>) -> bool {
        if self.has_payload() {
            exists|d: Seq<char>| #[trigger] self.payload_shows(d) && text == self.label() + d
        } else {
            text == self.label()
        }
    }

    /// The human-readable message of this error.
    pub fn message(&self) -> (r: String)
        ensures
            self.shows(r@),
    {
        match self {
            Error::InvalidPersistedData => String::from_str("Invalid persisted data"),
            Error::RkvError(e) => {
                let d = e.to_string();
                proof {
                    assert(self.payload_shows(d@));
                }
                labelled("Rkv error: ", d)
            },
            Error::IOError(e) => {
                let d = e.to_string();
                proof {
                    assert(self.payload_shows(d@));
                }
                labelled("IO error: ", d)
            },
            Error::JSONError(e) => {
                let d = e.to_string();
                proof {
                    assert(self.payload_shows(d@));
                }
                labelled("JSON Error: ", d)
            },
            Error::EvaluationError => String::from_str("EvaluationError"),
            Error::InvalidExpression => String::from_str("Invalid Expression"),
            Error::UrlParseError(e) => {
                let d = e.to_string();
                proof {
                    assert(self.payload_shows(d@));
                }
                labelled("Error parsing Url: ", d)
            },
            Error::RequestError(f) => {
                let d = f.message.clone();
                proof {
                    assert(self.payload_shows(d@));
                }
                labelled("Error sending request: ", d)
            },
            Error::ResponseError(m) => {
                let d = m.clone();
                proof {
                    assert(self.payload_shows(d@));
                }
                labelled("Server responded with an error: ", d)
            },
        }
    }
}

/// A failed store operation, kept whole.
impl From<rkv::StoreError> for Error {
    fn from(v: rkv::StoreError) -> Self {
        Error::RkvError(v)
    }
}

impl vstd::std_specs::convert::FromSpecImpl<rkv::StoreError> for Error {
    open spec fn obeys_from_spec() -> bool {
        true
    }

    open spec fn from_spec(v: rkv::StoreError) -> Self {
        Error::RkvError(v)
    }
}

/// A failed I/O operation, kept whole.
impl From<IoError> for Error {
    fn from(v: IoError) -> Self {
        Error::IOError(v)
    }
}

impl vstd::std_specs::convert::FromSpecImpl<IoError> for Error {
    open spec fn obeys_from_spec() -> bool {
        true
    }

    open spec fn from_spec(v: IoError) -> Self {
        Error::IOError(v)
    }
}

/// A failure of the JSON codec, kept whole.
impl From<JsonError> for Error {
    fn from(v: JsonError) -> Self {
        Error::JSONError(v)
    }
}

impl vstd::std_specs::convert::FromSpecImpl<JsonError> for Error {
    open spec fn obeys_from_spec() -> bool {
        true
    }

    open spec fn from_spec(v: JsonError) -> Self {
        Error::JSONError(v)
    }
}

/// A string that is no URL, with the parser's reason.
impl From<url::ParseError> for Error {
    fn from(v: url::ParseError) -> Self {
        Error::UrlParseError(v)
    }
}

impl vstd::std_specs::convert::FromSpecImpl<url::ParseError> for Error {
    open spec fn obeys_from_spec() -> bool {
        true
    }

    open spec fn from_spec(v: url::ParseError) -> Self {
        Error::UrlParseError(v)
    }
}

/// A request that failed before any response.
impl From<RequestFailure> for Error {
    fn from(v: RequestFailure) -> Self {
        Error::RequestError(v)
    }
}

impl vstd::std_specs::convert::FromSpecImpl<RequestFailure> for Error {
    open spec fn obeys_from_spec() -> bool {
        true
    }

    open spec fn from_spec(v: RequestFailure) -> Self {
        Error::RequestError(v)
    }
}

/// A failed evaluation of an expression; the evaluator's detail is not kept.
impl<'a> From<jexl_eval::error::EvaluationError<'a>> for Error {
    fn from(_v: jexl_eval::error::EvaluationError<'a>) -> Self {
        Error::EvaluationError
    }
}

impl<'a> vstd::std_specs::convert::FromSpecImpl<jexl_eval::error::EvaluationError<'a>> for Error {
    open spec fn obeys_from_spec() -> bool {
        true
    }

    open spec fn from_spec(_v: jexl_eval::error::EvaluationError<'a>) -> Self {
        Error::EvaluationError
    }
}

/// `d` is a text that displaying `v` gives.
pub open spec fn displays<T: std::fmt::Display>(v: &T, d: Seq<char>) -> bool {
    exists|s: String| #[trigger] to_string_from_display_ensures::<T>(v, s) && s@ == d
}

/// `label` followed by `detail`.
fn labelled(label: &str, detail: String) -> (r: String)
    ensures
        r@ == label@ + detail@,
{
    let mut r = String::from_str(label);
    r.append(detail.as_str());
    r
}

} // verus!
