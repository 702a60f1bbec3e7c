use voice_recorder::config::{auth, Config};

#[test]
fn load_config_requires_bind_addr() {
    let ok = Config::load_config(Some("127.0.0.1:8080".to_string()), None).unwrap();
    assert_eq!(ok.bind_addr, "127.0.0.1:8080");
    assert!(ok.auth.is_none());

    let err = Config::load_config(None, Some("SECRET-REDACTED".to_string()));
    assert_eq!(err.unwrap_err(), "No BIND_ADDR provided");
}

#[test]
fn auth_passes_without_configured_token() {
    assert!(auth(&None, None));
    assert!(auth(&None, Some(&"anything".to_string())));
}

#[test]
fn auth_compares_the_presented_token() {
    let expected = Some("SECRET-REDACTED".to_string());
    assert!(auth(&expected, Some(&"SECRET-REDACTED".to_string())));
    assert!(!auth(&expected, Some(&"wrong".to_string())));
    assert!(!auth(&expected, None));
}
