use config_server::{health_handler, home_handler, listen_address, Config};

#[test]
fn home_returns_message_verbatim() {
    let config = Config { message: "  hi there\n\u{e9}\t".to_string(), port: 1 };
    let r = home_handler(&config);
    assert_eq!(r.status, 200);
    assert_eq!(r.body, "  hi there\n\u{e9}\t");
}

#[test]
fn health_is_ok_before_anything_else() {
    let r = health_handler();
    assert_eq!(r.status, 200);
    assert_eq!(r.body, "OK");
}

#[test]
fn listen_addresses() {
    assert_eq!(listen_address(8080), "0.0.0.0:8080");
    assert_eq!(listen_address(0), "0.0.0.0:0");
    assert_eq!(listen_address(9), "0.0.0.0:9");
    assert_eq!(listen_address(10), "0.0.0.0:10");
    assert_eq!(listen_address(65535), "0.0.0.0:65535");
}
