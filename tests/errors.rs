use experiments::{Error, RequestFailure, Result};

fn url_failure() -> Error {
    Error::from(url::ParseError::EmptyHost)
}

#[test]
fn unit_variants_have_fixed_messages() {
    assert_eq!(Error::InvalidPersistedData.message(), "Invalid persisted data");
    assert_eq!(Error::EvaluationError.message(), "EvaluationError");
    assert_eq!(Error::InvalidExpression.message(), "Invalid Expression");
}

#[test]
fn url_conversion_message() {
    let e = url_failure();
    assert!(matches!(e, Error::UrlParseError(url::ParseError::EmptyHost)));
    assert_eq!(e.message(), "Error parsing Url: empty host");
}

#[test]
fn url_conversion_through_question_mark() {
    fn parse(s: &str) -> Result<url::Url> {
        Ok(url::Url::parse(s)?)
    }
    let e = parse("http://").unwrap_err();
    assert!(matches!(e, Error::UrlParseError(url::ParseError::EmptyHost)));
    assert_eq!(e.message(), "Error parsing Url: empty host");
}

#[test]
fn io_conversion_message() {
    let io = std::io::Error::new(std::io::ErrorKind::Other, "disk full");
    let e = Error::from(io);
    match &e {
        Error::IOError(inner) => {
            assert_eq!(inner.kind(), std::io::ErrorKind::Other);
            assert_eq!(inner.to_string(), "disk full");
        }
        _ => panic!("expected IOError"),
    }
    assert_eq!(e.message(), "IO error: disk full");
}

#[test]
fn json_conversion_message() {
    let json = serde_json::from_str::<serde_json::Value>("{").unwrap_err();
    let text = json.to_string();
    let e = Error::from(json);
    match &e {
        Error::JSONError(inner) => assert_eq!(inner.to_string(), text),
        _ => panic!("expected JSONError"),
    }
    assert_eq!(e.message(), format!("JSON Error: {}", text));
    assert!(e.message().contains(&text));
}

#[test]
fn request_conversion_message() {
    let f = RequestFailure {
        message: "connection refused".to_string(),
    };
    let e = Error::from(f);
    match &e {
        Error::RequestError(inner) => assert_eq!(inner.message, "connection refused"),
        _ => panic!("expected RequestError"),
    }
    assert_eq!(e.message(), "Error sending request: connection refused");
}

#[test]
fn store_conversion_keeps_failure() {
    let e = Error::from(rkv::StoreError::DatabaseCorrupted);
    assert!(matches!(e, Error::RkvError(rkv::StoreError::DatabaseCorrupted)));
    assert_eq!(e.message(), "Rkv error: database corrupted");
}

#[test]
fn store_conversion_keeps_payload_text() {
    let e = Error::from(rkv::StoreError::ManagerPoisonError);
    assert!(matches!(e, Error::RkvError(rkv::StoreError::ManagerPoisonError)));
    assert!(e.message().contains("manager poisoned"));
}

#[test]
fn evaluation_conversion_drops_detail() {
    let plain = Error::from(jexl_eval::error::EvaluationError::InvalidContext);
    assert!(matches!(plain, Error::EvaluationError));
    let detailed = Error::from(jexl_eval::error::EvaluationError::UnknownTransform(
        "lower".to_string(),
    ));
    assert!(matches!(detailed, Error::EvaluationError));
    assert_eq!(detailed.message(), "EvaluationError");
}

#[test]
fn response_error_message() {
    let e = Error::ResponseError("rate limited".to_string());
    assert_eq!(e.message(), "Server responded with an error: rate limited");
}

#[test]
fn response_error_empty_text() {
    let e = Error::ResponseError(String::new());
    assert_eq!(e.message(), "Server responded with an error: ");
}

#[test]
fn payload_text_is_contained() {
    let errors = vec![
        (Error::ResponseError("busy".to_string()), "busy".to_string()),
        (
            Error::RequestError(RequestFailure {
                message: "timed out".to_string(),
            }),
            "timed out".to_string(),
        ),
        (url_failure(), url::ParseError::EmptyHost.to_string()),
    ];
    for (e, text) in errors {
        assert!(e.message().contains(&text));
        assert!(e.message().ends_with(&text));
    }
}

#[test]
fn result_alias_defaults_to_error() {
    fn fails() -> Result<u32> {
        Err(Error::InvalidExpression)
    }
    fn succeeds() -> Result<u32> {
        Ok(7)
    }
    let r: std::result::Result<u32, Error> = fails();
    assert!(matches!(r, Err(Error::InvalidExpression)));
    let ok: std::result::Result<u32, Error> = succeeds();
    assert_eq!(ok.unwrap(), 7);
    let other: Result<u32, String> = Err("x".to_string());
    assert_eq!(other.unwrap_err(), "x");
}
