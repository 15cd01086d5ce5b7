//! Broker authentication selection, resolved once at startup from the
//! configured protocol string. An unrecognized protocol is a fatal startup
//! error: the batching engine never starts, and no socket should be bound.

use vstd::prelude::*;
use vstd::string::StringExecFns;

verus! {

/// SASL plaintext credentials for the broker.
#[derive(Clone, Debug, PartialEq, Eq)]
pub struct SaslAuth {
    pub username: String,
    pub password: String,
    pub mechanism: String,
}

/// The broker authentication modes the collector recognizes.
#[derive(Clone, Debug, PartialEq, Eq)]
pub enum KafkaAuth {
    SaslPlainText(SaslAuth),
    PlainText,
}

/// The startup error for an unrecognized authentication protocol string.
#[derive(Clone, Copy, Debug, PartialEq, Eq, Structural)]
pub enum AuthError {
    InvalidProtocol,
}

impl AuthError {
    /// A human-readable description of the error.
    pub fn message(&self) -> (r: String)
    {
        String::from_str("invalid Kafka producer authentication protocol")
    }
}

/// Resolve the authentication mode from the protocol string:
/// "PLAINTEXT" selects no authentication, "SASL_PLAINTEXT" selects SASL
/// with the given credentials, and anything else is the fatal startup
/// error.
pub fn select_auth(protocol: &String, username: String, password: String, mechanism: String) -> (r:
    Result<KafkaAuth, AuthError>)
    ensures
        r == Ok::<KafkaAuth, AuthError>(KafkaAuth::PlainText) <==> protocol@ == "PLAINTEXT"@,
        r == Ok::<KafkaAuth, AuthError>(
            KafkaAuth::SaslPlainText(
                SaslAuth { username: username, password: password, mechanism: mechanism },
            ),
        ) <==> protocol@ == "SASL_PLAINTEXT"@,
        r is Err <==> (protocol@ != "PLAINTEXT"@ && protocol@ != "SASL_PLAINTEXT"@),
{
    proof {
        reveal_strlit("PLAINTEXT");
        reveal_strlit("SASL_PLAINTEXT");
        assert("PLAINTEXT"@.len() == 9);
        assert("SASL_PLAINTEXT"@.len() == 14);
        assert("PLAINTEXT"@ != "SASL_PLAINTEXT"@);
    }
    let plain = String::from_str("PLAINTEXT");
    let sasl = String::from_str("SASL_PLAINTEXT");
    if protocol.eq(&plain) {
        Ok(KafkaAuth::PlainText)
    } else if protocol.eq(&sasl) {
        Ok(
            KafkaAuth::SaslPlainText(
                SaslAuth { username: username, password: password, mechanism: mechanism },
            ),
        )
    } else {
        Err(AuthError::InvalidProtocol)
    }
}

} // verus!
