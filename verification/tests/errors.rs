use icalbot::errors::{BotError, WebServerError};

#[test]
fn bot_error_shows_its_message() {
    let e = BotError::new("boom".to_string());
    assert_eq!(e.message(), "boom");
    assert_eq!(e.to_string(), "boom");
    assert_eq!(e.clone().to_string(), "boom");
}

#[test]
fn web_server_error_texts() {
    let e = WebServerError::from_io("address in use");
    assert_eq!(e.message(), "IO Error: address in use");
    assert_eq!(e.to_string(), "Web Error: IO Error: address in use");
    let s = WebServerError::server("closed");
    assert_eq!(s.to_string(), "Web Error: Server error: closed");
    assert_eq!(WebServerError::new("x".to_string()).to_string(), "Web Error: x");
}
