use base64::Engine;
use service_core::error::{Error, JwtFailure, Severity, StorageFailure};

#[test]
fn status_table_matches_contract() {
    assert_eq!(Error::Unauthenticated.status(), 401);
    assert_eq!(Error::CredentialsInvalid.status(), 401);
    assert_eq!(Error::JwtExpired.status(), 401);
    assert_eq!(Error::JwtInvalid.status(), 401);
    assert_eq!(Error::Unauthorized.status(), 403);
    assert_eq!(Error::HandleAlreadyExists.status(), 409);
    assert_eq!(Error::JwtMalformed.status(), 400);
    assert_eq!(Error::WsInitNotObject.status(), 400);
    assert_eq!(Error::WsInitTokenNotString.status(), 400);
    assert_eq!(Error::ServerMisconfigured("d".to_string()).status(), 500);
    assert_eq!(Error::InternalServerError("d".to_string()).status(), 500);
    assert_eq!(Error::NotImplemented.status(), 500);
}

#[test]
fn code_is_variant_name_with_detail_stripped() {
    assert_eq!(Error::Unauthenticated.code(), "Unauthenticated");
    assert_eq!(Error::HandleAlreadyExists.code(), "HandleAlreadyExists");
    assert_eq!(
        Error::ServerMisconfigured("secret detail".to_string()).code(),
        "ServerMisconfigured"
    );
    assert_eq!(
        Error::InternalServerError("secret detail".to_string()).code(),
        "InternalServerError"
    );
}

#[test]
fn message_never_contains_detail() {
    let detail = "datastore endpoint 10.0.0.1 unreachable";
    let e = Error::ServerMisconfigured(detail.to_string());
    assert_eq!(e.message(), "The server is misconfigured");
    assert!(!e.message().contains(detail));
    let e = Error::InternalServerError(detail.to_string());
    assert_eq!(e.message(), "An internal server error occurred");
    assert!(!e.message().contains(detail));
}

#[test]
fn log_carries_detail_for_notable_kinds() {
    let detail = "datastore endpoint 10.0.0.1 unreachable";
    let rec = Error::ServerMisconfigured(detail.to_string()).log().unwrap();
    assert_eq!(rec.severity, Severity::Error);
    assert_eq!(rec.text, format!("Server misconfigured: {}", detail));
    assert!(rec.text.contains(detail));
    let rec = Error::InternalServerError(detail.to_string()).log().unwrap();
    assert_eq!(rec.severity, Severity::Error);
    assert_eq!(rec.text, format!("Internal server error: {}", detail));
    let rec = Error::NotImplemented.log().unwrap();
    assert_eq!(rec.severity, Severity::Warning);
    assert_eq!(rec.text, "Unimplemented feature called");
}

#[test]
fn ordinary_kinds_are_not_logged() {
    assert_eq!(Error::Unauthenticated.log(), None);
    assert_eq!(Error::Unauthorized.log(), None);
    assert_eq!(Error::CredentialsInvalid.log(), None);
    assert_eq!(Error::HandleAlreadyExists.log(), None);
    assert_eq!(Error::JwtMalformed.log(), None);
    assert_eq!(Error::JwtExpired.log(), None);
    assert_eq!(Error::JwtInvalid.log(), None);
    assert_eq!(Error::WsInitNotObject.log(), None);
    assert_eq!(Error::WsInitTokenNotString.log(), None);
}

#[test]
fn render_bundles_status_payload_and_log() {
    let (status, data, log) = Error::ServerMisconfigured("broken key".to_string()).render();
    assert_eq!(status, 500);
    assert_eq!(data.code, "ServerMisconfigured");
    assert_eq!(data.message, "The server is misconfigured");
    assert!(!data.message.contains("broken key"));
    let rec = log.unwrap();
    assert!(rec.text.contains("broken key"));

    let (status, data, log) = Error::Unauthorized.render();
    assert_eq!(status, 403);
    assert_eq!(data.code, "Unauthorized");
    assert_eq!(data.message, "Unauthorized");
    assert_eq!(log, None);
}

#[test]
fn from_text_is_internal_with_detail() {
    let e = Error::from_text("config file missing");
    assert_eq!(
        e,
        Error::InternalServerError("config file missing".to_string())
    );
}

#[test]
fn from_err_is_internal_with_rendered_text() {
    let parse_err = "abc".parse::<i32>().unwrap_err();
    let text = parse_err.to_string();
    let e = Error::from_err(parse_err);
    assert_eq!(e, Error::InternalServerError(text));
}

#[test]
fn jwt_classification_table() {
    assert_eq!(
        Error::from_jwt_failure(JwtFailure::InvalidToken),
        Error::JwtMalformed
    );
    assert_eq!(
        Error::from_jwt_failure(JwtFailure::InvalidAlgorithmName),
        Error::JwtMalformed
    );
    assert_eq!(
        Error::from_jwt_failure(JwtFailure::InvalidKeyFormat),
        Error::JwtMalformed
    );
    assert_eq!(
        Error::from_jwt_failure(JwtFailure::InvalidEcdsaKey),
        Error::ServerMisconfigured("EcDSA key invalid".to_string())
    );
    assert_eq!(
        Error::from_jwt_failure(JwtFailure::InvalidEddsaKey),
        Error::ServerMisconfigured("EdDSA key invalid".to_string())
    );
    assert_eq!(
        Error::from_jwt_failure(JwtFailure::InvalidRsaKey("too short".to_string())),
        Error::ServerMisconfigured("RSA key is invalid: too short".to_string())
    );
    assert_eq!(
        Error::from_jwt_failure(JwtFailure::RsaFailedSigning),
        Error::ServerMisconfigured("RSA signing failed".to_string())
    );
    assert_eq!(
        Error::from_jwt_failure(JwtFailure::SigningFailed("no key".to_string())),
        Error::ServerMisconfigured("Signing failed: no key".to_string())
    );
    assert_eq!(
        Error::from_jwt_failure(JwtFailure::ExpiredSignature),
        Error::JwtExpired
    );
    assert_eq!(Error::from_jwt_failure(JwtFailure::Other), Error::JwtInvalid);
}

#[test]
fn jwt_malformed_token_classifies_to_malformed() {
    let err = jsonwebtoken::decode::<serde_json::Value>(
        "not-a-token",
        &jsonwebtoken::DecodingKey::from_secret(b"secret"),
        &jsonwebtoken::Validation::new(jsonwebtoken::Algorithm::HS256),
    )
    .unwrap_err();
    assert_eq!(Error::from_jwt(err), Error::JwtMalformed);
}

#[test]
fn jwt_expired_token_classifies_to_expired() {
    let mut claims = serde_json::Map::new();
    claims.insert("exp".to_string(), serde_json::Value::from(1));
    let token = jsonwebtoken::encode(
        &jsonwebtoken::Header::default(),
        &serde_json::Value::Object(claims),
        &jsonwebtoken::EncodingKey::from_secret(b"secret"),
    )
    .unwrap();
    let err = jsonwebtoken::decode::<serde_json::Value>(
        &token,
        &jsonwebtoken::DecodingKey::from_secret(b"secret"),
        &jsonwebtoken::Validation::new(jsonwebtoken::Algorithm::HS256),
    )
    .unwrap_err();
    assert_eq!(Error::from_jwt(err), Error::JwtExpired);
}

#[test]
fn crypto_failure_collapses_to_credentials_invalid() {
    assert_eq!(
        Error::from_crypto(ring::error::Unspecified),
        Error::CredentialsInvalid
    );
}

#[test]
fn storage_classification_table() {
    assert_eq!(
        Error::from_storage_failure(StorageFailure::Configuration("bad datastore".to_string())),
        Error::ServerMisconfigured("bad datastore".to_string())
    );
    assert_eq!(
        Error::from_storage_failure(StorageFailure::Other("row not found".to_string())),
        Error::InternalServerError("row not found".to_string())
    );
}

#[test]
fn storage_engine_errors_classify_by_kind() {
    let setup = surrealdb::Error::configuration("bad datastore path".to_string(), None);
    assert_eq!(
        Error::from_storage(setup),
        Error::ServerMisconfigured("bad datastore path".to_string())
    );
    let other = surrealdb::Error::internal("transient failure".to_string());
    assert_eq!(
        Error::from_storage(other),
        Error::InternalServerError("transient failure".to_string())
    );
}

#[test]
fn base64_decode_error_folds_to_internal() {
    let err = base64::engine::general_purpose::STANDARD
        .decode("!!!!")
        .unwrap_err();
    let text = err.to_string();
    assert_eq!(Error::from_base64(err), Error::InternalServerError(text));
}
