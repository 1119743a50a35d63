use oxiderr::decimal::decimal_string;
use oxiderr::{AsError, Error, ErrorKind};
use std::collections::BTreeMap;

#[allow(non_upper_case_globals)]
const IoError: ErrorKind = ErrorKind("IoError", "Err-00001", 500, "I/O failure");

#[derive(Debug, Clone)]
struct ReadFailed {
    class: String,
    message: String,
    details: Option<BTreeMap<String, serde_value::Value>>,
}

impl ReadFailed {
    fn new(message: &str, details: BTreeMap<String, serde_value::Value>) -> Self {
        ReadFailed {
            class: format!("{}::{}::ReadFailed", IoError.side(), IoError.name()),
            message: message.to_string(),
            details: Some(details),
        }
    }
}

impl AsError for ReadFailed {
    fn kind() -> ErrorKind {
        IoError
    }

    fn message(&self) -> String {
        self.message.clone()
    }

    fn class(&self) -> String {
        self.class.clone()
    }

    fn details(&self) -> Option<BTreeMap<String, serde_value::Value>> {
        self.details.clone()
    }
}

fn not_found() -> Error {
    Error {
        kind: ErrorKind("NotFound", "MSG001", 404, "Not Found"),
        class: "Client::NotFound::MyError".to_string(),
        message: "Not Found".to_string(),
        details: None,
    }
}

#[test]
fn default_is_the_internal_server_error() {
    let error = Error::default();
    assert_eq!(error.kind.name(), "InternalServerError");
    assert_eq!(error.kind.message_id(), "MSG000");
    assert_eq!(error.kind.code(), 500);
    assert_eq!(error.kind.description(), "Internal Server Error");
    assert_eq!(error.kind.side(), "Server");
    assert_eq!(error.class, "Server::InternalServerError::Error");
    assert_eq!(error.message, "Internal Server Error");
    assert!(error.details.is_none());
    assert_eq!(
        error.to_string(),
        "[MSG000] Server::InternalServerError::Error (500) - Internal Server Error"
    );
}

#[test]
fn rendering_of_not_found() {
    assert_eq!(
        not_found().to_string(),
        "[MSG001] Client::NotFound::MyError (404) - Not Found"
    );
}

#[test]
fn rendering_leaves_details_out() {
    let mut details = BTreeMap::new();
    details.insert("path".to_string(), serde_value::Value::String("/tmp/x".to_string()));
    let mut error = not_found();
    error.details = Some(details);
    assert_eq!(
        error.to_string(),
        "[MSG001] Client::NotFound::MyError (404) - Not Found"
    );
}

#[test]
fn rendering_with_empty_texts() {
    let error = Error {
        kind: ErrorKind("", "", 0, ""),
        class: String::new(),
        message: String::new(),
        details: None,
    };
    assert_eq!(error.to_string(), "[]  (0) - ");
}

#[test]
fn rendering_with_the_largest_code() {
    let error = Error {
        kind: ErrorKind("Big", "M-1", 65535, "big"),
        class: "Server::Big::T".to_string(),
        message: "çà et là".to_string(),
        details: None,
    };
    assert_eq!(error.to_string(), "[M-1] Server::Big::T (65535) - çà et là");
}

#[test]
fn rendering_follows_an_overwritten_message() {
    let mut error = Error::default();
    error.message = "No such file or directory (os error 2)".to_string();
    assert_eq!(
        error.to_string(),
        "[MSG000] Server::InternalServerError::Error (500) - No such file or directory (os error 2)"
    );
}

#[test]
fn read_failed_end_to_end() {
    let mut details = BTreeMap::new();
    details.insert("path".to_string(), serde_value::to_value("/tmp/x").unwrap());
    let failure = ReadFailed::new("disk full", details.clone());

    let error: Error = failure.clone().into();
    assert_eq!(error.kind, IoError);
    assert_eq!(error.class, "Server::IoError::ReadFailed");
    assert_eq!(error.class, failure.class());
    assert_eq!(error.message, "disk full");
    assert_eq!(error.details, Some(details));
    assert_eq!(
        error.to_string(),
        "[Err-00001] Server::IoError::ReadFailed (500) - disk full"
    );
}

#[test]
fn from_parts_keeps_every_part() {
    let mut details = BTreeMap::new();
    details.insert("attempt".to_string(), serde_value::Value::U8(3));
    let error = Error::from_parts(
        ErrorKind("Timeout", "MSG408", 408, "Timed out"),
        "Client::Timeout::Slow".to_string(),
        "too slow".to_string(),
        Some(details.clone()),
    );
    assert_eq!(error.kind, ErrorKind("Timeout", "MSG408", 408, "Timed out"));
    assert_eq!(error.class, "Client::Timeout::Slow");
    assert_eq!(error.message, "too slow");
    assert_eq!(error.details, Some(details));
}

#[test]
fn clone_keeps_every_field() {
    let mut details = BTreeMap::new();
    details.insert("path".to_string(), serde_value::Value::String("/tmp/x".to_string()));
    details.insert("size".to_string(), serde_value::Value::U64(12));
    let mut error = not_found();
    error.details = Some(details.clone());

    let copy = error.clone();
    assert_eq!(copy.kind, error.kind);
    assert_eq!(copy.class, "Client::NotFound::MyError");
    assert_eq!(copy.message, "Not Found");
    assert_eq!(copy.details, Some(details));
    assert_eq!(copy.to_string(), error.to_string());

    let bare = not_found().clone();
    assert!(bare.details.is_none());
}

#[test]
fn io_error_is_invalid_data_with_the_rendering() {
    let io: std::io::Error = not_found().into();
    assert_eq!(io.kind(), std::io::ErrorKind::InvalidData);
    assert_eq!(
        io.to_string(),
        "[MSG001] Client::NotFound::MyError (404) - Not Found"
    );
}

#[test]
fn io_error_of_the_default() {
    let io = std::io::Error::from(Error::default());
    assert_eq!(io.kind(), std::io::ErrorKind::InvalidData);
    assert_eq!(
        io.to_string(),
        "[MSG000] Server::InternalServerError::Error (500) - Internal Server Error"
    );
}

fn open_missing() -> Result<(), std::io::Error> {
    let failed: Result<(), Error> = Err(not_found());
    failed?;
    Ok(())
}

#[test]
fn question_mark_converts_into_an_io_error() {
    let io = open_missing().unwrap_err();
    assert_eq!(io.kind(), std::io::ErrorKind::InvalidData);
    assert_eq!(
        io.to_string(),
        "[MSG001] Client::NotFound::MyError (404) - Not Found"
    );
}

#[test]
fn decimal_of_single_digits() {
    assert_eq!(decimal_string(0), "0");
    assert_eq!(decimal_string(7), "7");
    assert_eq!(decimal_string(9), "9");
}

#[test]
fn decimal_of_longer_numbers() {
    assert_eq!(decimal_string(10), "10");
    assert_eq!(decimal_string(404), "404");
    assert_eq!(decimal_string(500), "500");
    assert_eq!(decimal_string(1000), "1000");
    assert_eq!(decimal_string(9999), "9999");
    assert_eq!(decimal_string(65535), "65535");
}

#[test]
fn decimal_agrees_with_std_on_every_code() {
    let mut code: u16 = 0;
    loop {
        assert_eq!(decimal_string(code), format!("{}", code));
        if code == u16::MAX {
            break;
        }
        code += 1;
    }
}

fn always_fails() -> oxiderr::Result<i32> {
    Err(Error::default())
}

#[test]
fn result_alias_carries_an_error() {
    let error = always_fails().unwrap_err();
    assert_eq!(error.kind.code(), 500);
    assert_eq!(error.message, "Internal Server Error");
}
