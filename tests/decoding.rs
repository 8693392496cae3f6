use config_server::{decode_members, Config, ParseFailure};

fn decode(text: &str) -> Result<Config, ParseFailure> {
    Config::from_json(text)
}

#[test]
fn decodes_message_and_port() {
    let c = decode(r#"{"message": "hello", "port": 8080}"#).unwrap();
    assert_eq!(c.message, "hello");
    assert_eq!(c.port, 8080);
}

#[test]
fn ignores_extra_fields() {
    let c = decode(r#"{"name": "x", "port": 1, "message": "m", "extra": [1, 2]}"#).unwrap();
    assert_eq!(c.message, "m");
    assert_eq!(c.port, 1);
}

#[test]
fn accepts_port_bounds() {
    assert_eq!(decode(r#"{"message": "", "port": 0}"#).unwrap().port, 0);
    assert_eq!(decode(r#"{"message": "", "port": 65535}"#).unwrap().port, 65535);
}

#[test]
fn missing_port_is_refused() {
    match decode(r#"{"message": "hi"}"#) {
        Err(ParseFailure::MissingField(f)) => assert_eq!(f, "port"),
        _ => panic!("expected a missing field"),
    }
}

#[test]
fn missing_message_is_refused() {
    match decode(r#"{"port": 8080}"#) {
        Err(ParseFailure::MissingField(f)) => assert_eq!(f, "message"),
        _ => panic!("expected a missing field"),
    }
}

#[test]
fn port_out_of_range_is_refused() {
    for text in [
        r#"{"message": "a", "port": 65536}"#,
        r#"{"message": "a", "port": -1}"#,
        r#"{"message": "a", "port": "80"}"#,
        r#"{"message": "a", "port": 80.5}"#,
    ] {
        match decode(text) {
            Err(ParseFailure::InvalidField(f)) => assert_eq!(f, "port"),
            _ => panic!("expected an invalid port in {}", text),
        }
    }
}

#[test]
fn message_of_wrong_type_is_refused() {
    match decode(r#"{"message": 5, "port": 80}"#) {
        Err(ParseFailure::InvalidField(f)) => assert_eq!(f, "message"),
        _ => panic!("expected an invalid message"),
    }
}

#[test]
fn syntax_error_is_refused() {
    match decode(r#"{"message": "a", "port": 80"#) {
        Err(ParseFailure::Syntax(s)) => assert!(!s.is_empty()),
        _ => panic!("expected a syntax error"),
    }
}

#[test]
fn non_object_is_refused() {
    assert!(matches!(decode(r#"["a", 80]"#), Err(ParseFailure::NotAnObject)));
    assert!(matches!(decode("42"), Err(ParseFailure::NotAnObject)));
}

#[test]
fn failure_descriptions() {
    assert_eq!(
        ParseFailure::MissingField("port".to_string()).describe(),
        "missing field `port`"
    );
    assert_eq!(
        ParseFailure::InvalidField("message".to_string()).describe(),
        "invalid value for field `message`"
    );
    assert_eq!(ParseFailure::NotAnObject.describe(), "expected a JSON object");
}

#[test]
fn decode_members_takes_first_of_duplicates() {
    let ms = vec![
        ("message".to_string(), Some("first".to_string()), None),
        ("port".to_string(), None, Some(7)),
        ("message".to_string(), Some("second".to_string()), None),
    ];
    let c = decode_members(&ms).unwrap();
    assert_eq!(c.message, "first");
    assert_eq!(c.port, 7);
}
