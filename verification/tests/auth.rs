//! Tests of broker authentication selection: the two recognized protocol
//! strings, and the fatal startup error for anything else.

use pesto::{select_auth, AuthError, KafkaAuth};

#[test]
fn plaintext_selects_no_auth() {
    let r = select_auth(
        &String::from("PLAINTEXT"),
        String::from("user"),
        String::from("pass"),
        String::from("SCRAM-SHA-512"),
    );
    assert!(matches!(r, Ok(KafkaAuth::PlainText)));
}

#[test]
fn sasl_plaintext_selects_credentials() {
    let r = select_auth(
        &String::from("SASL_PLAINTEXT"),
        String::from("user"),
        String::from("pass"),
        String::from("SCRAM-SHA-512"),
    );
    match r {
        Ok(KafkaAuth::SaslPlainText(auth)) => {
            assert_eq!(auth.username, "user");
            assert_eq!(auth.password, "pass");
            assert_eq!(auth.mechanism, "SCRAM-SHA-512");
        }
        _ => panic!("expected SASL plaintext auth"),
    }
}

#[test]
fn invalid_protocol_fails_fast() {
    let r = select_auth(
        &String::from("SSL"),
        String::new(),
        String::new(),
        String::new(),
    );
    assert_eq!(r, Err(AuthError::InvalidProtocol));
    let r2 = select_auth(
        &String::from("plaintext"),
        String::new(),
        String::new(),
        String::new(),
    );
    assert!(r2.is_err());
}
