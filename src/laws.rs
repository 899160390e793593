//! What holds of every error: how its message relates to its payload, and
//! what each conversion keeps.

use vstd::prelude::*;
use vstd::std_specs::convert::FromSpec;
use serde_json::Error as JsonError;
use std::io::Error as IoError;
use crate::error::{displays, Error, RequestFailure};

verus! {

/// The message of an error with a payload holds the payload's own text:
/// it ends with it.
pub proof fn message_ends_with_payload_text(e: &Error, text: Seq<char>)
    requires
        e.has_payload(),
        e.shows(text),
    ensures
        exists|d: Seq<char>|
            #![trigger e.payload_shows(d)]
            e.payload_shows(d) && d.len() <= text.len() && text.subrange(
                text.len() - d.len(),
                text.len() as int,
            ) == d,
{
    let d = choose|d: Seq<char>| #[trigger] e.payload_shows(d) && text == e.label() + d;
    assert(text.subrange(text.len() - d.len(), text.len() as int) =~= d);
}

/// An error without a payload has exactly its fixed message.
pub proof fn fixed_messages(text: Seq<char>)
    ensures
        Error::InvalidPersistedData.shows(text) <==> text == "Invalid persisted data"@,
        Error::EvaluationError.shows(text) <==> text == "EvaluationError"@,
        Error::InvalidExpression.shows(text) <==> text == "Invalid Expression"@,
{
}

/// Converting an I/O failure keeps it, and the message is
/// `IO error: ` followed by its text.
pub proof fn io_conversion(e: IoError, text: Seq<char>)
    ensures
        <Error as FromSpec<IoError>>::from_spec(e) == Error::IOError(e),
        <Error as FromSpec<IoError>>::from_spec(e).shows(text) <==> exists|d: Seq<char>|
            #[trigger] displays(&e, d) && text == "IO error: "@ + d,
{
    let x = <Error as FromSpec<IoError>>::from_spec(e);
    if x.shows(text) {
        let d = choose|d: Seq<char>| #[trigger] x.payload_shows(d) && text == x.label() + d;
        assert(displays(&e, d));
    }
    if exists|d: Seq<char>| #[trigger] displays(&e, d) && text == "IO error: "@ + d {
        let d = choose|d: Seq<char>| #[trigger] displays(&e, d) && text == "IO error: "@ + d;
        assert(x.payload_shows(d));
    }
}

/// Converting a JSON codec failure keeps it, and the message is
/// `JSON Error: ` followed by its text.
pub proof fn json_conversion(e: JsonError, text: Seq<char>)
    ensures
        <Error as FromSpec<JsonError>>::from_spec(e) == Error::JSONError(e),
        <Error as FromSpec<JsonError>>::from_spec(e).shows(text) <==> exists|d: Seq<char>|
            #[trigger] displays(&e, d) && text == "JSON Error: "@ + d,
{
    let x = <Error as FromSpec<JsonError>>::from_spec(e);
    if x.shows(text) {
        let d = choose|d: Seq<char>| #[trigger] x.payload_shows(d) && text == x.label() + d;
        assert(displays(&e, d));
    }
    if exists|d: Seq<char>| #[trigger] displays(&e, d) && text == "JSON Error: "@ + d {
        let d = choose|d: Seq<char>| #[trigger] displays(&e, d) && text == "JSON Error: "@ + d;
        assert(x.payload_shows(d));
    }
}

/// Converting a URL parse failure keeps it, and the message is
/// `Error parsing Url: ` followed by its text.
pub proof fn url_conversion(e: url::ParseError, text: Seq<char>)
    ensures
        <Error as FromSpec<url::ParseError>>::from_spec(e) == Error::UrlParseError(e),
        <Error as FromSpec<url::ParseError>>::from_spec(e).shows(text) <==> exists|d: Seq<char>|
            #[trigger] displays(&e, d) && text == "Error parsing Url: "@ + d,
{
    let x = <Error as FromSpec<url::ParseError>>::from_spec(e);
    if x.shows(text) {
        let d = choose|d: Seq<char>| #[trigger] x.payload_shows(d) && text == x.label() + d;
        assert(displays(&e, d));
    }
    if exists|d: Seq<char>| #[trigger] displays(&e, d) && text == "Error parsing Url: "@ + d {
        let d = choose|d: Seq<char>| #[trigger] displays(&e, d) && text == "Error parsing Url: "@ + d;
        assert(x.payload_shows(d));
    }
}

/// Converting a failed request keeps it, and the message is
/// `Error sending request: ` followed by its text.
pub proof fn request_conversion(f: RequestFailure, text: Seq<char>)
    ensures
        <Error as FromSpec<RequestFailure>>::from_spec(f) == Error::RequestError(f),
        <Error as FromSpec<RequestFailure>>::from_spec(f).shows(text) <==> text
            == "Error sending request: "@ + f.message@,
{
    let e = <Error as FromSpec<RequestFailure>>::from_spec(f);
    if text == "Error sending request: "@ + f.message@ {
        assert(e.payload_shows(f.message@));
    }
}

/// Converting a store failure wraps that very failure, unchanged.
pub proof fn store_conversion(e: rkv::StoreError)
    ensures
        <Error as FromSpec<rkv::StoreError>>::from_spec(e) == Error::RkvError(e),
{
}

/// Converting an evaluator failure gives `EvaluationError`, whatever the
/// failure held.
pub proof fn evaluation_conversion<'a>(e: jexl_eval::error::EvaluationError<'a>)
    ensures
        <Error as FromSpec<jexl_eval::error::EvaluationError<'a>>>::from_spec(e)
            == Error::EvaluationError,
{
}

/// A response error's message is `Server responded with an error: `
/// followed by the text it was made with.
pub proof fn response_message(m: String, text: Seq<char>)
    ensures
        Error::ResponseError(m).shows(text) <==> text == "Server responded with an error: "@ + m@,
{
    if text == "Server responded with an error: "@ + m@ {
        assert(Error::ResponseError(m).payload_shows(m@));
    }
}

} // verus!
