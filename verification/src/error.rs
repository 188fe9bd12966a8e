//! The closed error taxonomy, its subsystem adapters, and the boundary
//! renderer that turns a kind into a transport status plus a minimal client
//! payload.
//!
//! Every failure in the service is expressed as exactly one [`Error`] before
//! it reaches the boundary. The renderer never places the `detail` payload of
//! the two detail-carrying kinds in the client-visible message: detail goes
//! only to the log record, which the caller emits at the outermost edge,
//! exactly once per error.

use jsonwebtoken::errors::Error as JsonWebTokenError;
use surrealdb::Error as SurrealError;
use vstd::prelude::*;
use vstd::string::*;

verus! {

/// The closed set of failure conditions of the service.
///
/// Each variant has a fixed, non-sensitive client-visible message template.
/// The `detail` payloads of `ServerMisconfigured` and `InternalServerError`
/// appear only in the log record, never in the client message.
#[derive(Debug, Clone, PartialEq, Eq)]
pub enum Error {
    Unauthenticated,
    Unauthorized,
    CredentialsInvalid,
    HandleAlreadyExists,
    JwtMalformed,
    JwtExpired,
    JwtInvalid,
    WsInitNotObject,
    WsInitTokenNotString,
    ServerMisconfigured(String),
    InternalServerError(String),
    NotImplemented,
}

/// The transport status a kind is rendered to. The match is exhaustive on
/// purpose: a new kind forces a conscious status decision.
pub open spec fn status_of(e: Error) -> u16 {
    match e {
        Error::Unauthenticated => 401,
        Error::CredentialsInvalid => 401,
        Error::JwtExpired => 401,
        Error::JwtInvalid => 401,
        Error::Unauthorized => 403,
        Error::HandleAlreadyExists => 409,
        Error::JwtMalformed => 400,
        Error::WsInitNotObject => 400,
        Error::WsInitTokenNotString => 400,
        Error::ServerMisconfigured(_) => 500,
        Error::InternalServerError(_) => 500,
        Error::NotImplemented => 500,
    }
}

/// The client-visible code: the bare variant name, with detail stripped from
/// the two detail-carrying kinds.
pub open spec fn code_of(e: Error) -> Seq<char> {
    match e {
        Error::Unauthenticated => "Unauthenticated"@,
        Error::Unauthorized => "Unauthorized"@,
        Error::CredentialsInvalid => "CredentialsInvalid"@,
        Error::HandleAlreadyExists => "HandleAlreadyExists"@,
        Error::JwtMalformed => "JwtMalformed"@,
        Error::JwtExpired => "JwtExpired"@,
        Error::JwtInvalid => "JwtInvalid"@,
        Error::WsInitNotObject => "WsInitNotObject"@,
        Error::WsInitTokenNotString => "WsInitTokenNotString"@,
        Error::ServerMisconfigured(_) => "ServerMisconfigured"@,
        Error::InternalServerError(_) => "InternalServerError"@,
        Error::NotImplemented => "NotImplemented"@,
    }
}

/// The client-visible message: the fixed template of the variant, never the
/// detail payload.
pub open spec fn message_of(e: Error) -> Seq<char> {
    match e {
        Error::Unauthenticated => "Unauthenticated"@,
        Error::Unauthorized => "Unauthorized"@,
        Error::CredentialsInvalid => "Credentials are invalid"@,
        Error::HandleAlreadyExists => "Handle already exists"@,
        Error::JwtMalformed => "JWT is malformed"@,
        Error::JwtExpired => "JWT is expired"@,
        Error::JwtInvalid => "JWT is invalid"@,
        Error::WsInitNotObject => "GraphQL WebSocket init must be an object, null, or undefined"@,
        Error::WsInitTokenNotString => "GraphQL WebSocket init `token` must be a string or undefined"@,
        Error::ServerMisconfigured(_) => "The server is misconfigured"@,
        Error::InternalServerError(_) => "An internal server error occurred"@,
        Error::NotImplemented => "Feature is not implemented yet"@,
    }
}

/// Severity of a log record emitted at the boundary.
#[derive(Debug, Clone, Copy, PartialEq, Eq)]
pub enum Severity {
    Error,
    Warning,
}

/// What the boundary should hand to the logger for one error, if anything.
/// The caller at the outermost edge emits it exactly once per error.
#[derive(Debug, Clone, PartialEq, Eq)]
pub struct LogRecord {
    pub severity: Severity,
    pub text: String,
}

/// The severity an error is logged at, or `None` for the ordinary
/// client-facing kinds, which are not operational incidents.
pub open spec fn log_severity_of(e: Error) -> Option<Severity> {
    match e {
        Error::ServerMisconfigured(_) => Some(Severity::Error),
        Error::InternalServerError(_) => Some(Severity::Error),
        Error::NotImplemented => Some(Severity::Warning),
        _ => None,
    }
}

/// The text of the log record for a notable error; carries the full detail.
pub open spec fn log_text_of(e: Error) -> Seq<char> {
    match e {
        Error::ServerMisconfigured(d) => "Server misconfigured: "@ + d@,
        Error::InternalServerError(d) => "Internal server error: "@ + d@,
        Error::NotImplemented => "Unimplemented feature called"@,
        _ => Seq::<char>::empty(),
    }
}

/// What a correct log decision looks like for a given error.
pub open spec fn logged_correctly(e: Error, r: Option<LogRecord>) -> bool {
    match log_severity_of(e) {
        Some(s) => r matches Some(rec) && rec.severity == s && rec.text@ == log_text_of(e),
        None => r is None,
    }
}

/// The minimal client payload: variant code and fixed message, never detail.
#[derive(Debug, Clone, PartialEq, Eq)]
pub struct ErrorData {
    pub code: String,
    pub message: String,
}

impl Error {
    /// Catch-all adapter: any ad-hoc failure text becomes `InternalServerError`
    /// carrying that text as detail.
    pub fn from_text(msg: &str) -> (r: Self)
        ensures
            r matches Error::InternalServerError(d) && d@ == msg@,
    {
        Error::InternalServerError(msg.to_owned())
    }

    /// Catch-all adapter: any error value becomes `InternalServerError`
    /// carrying its rendered text as detail.
    pub fn from_err<T: std::error::Error>(err: T) -> (r: Self)
        ensures
            r matches Error::InternalServerError(d)
                && vstd::string::to_string_from_display_ensures::<T>(&err, d),
    {
        Error::InternalServerError(err.to_string())
    }

    /// The client-visible code of this kind: the bare variant name, detail
    /// stripped.
    pub fn code(&self) -> (r: String)
        ensures
            r@ == code_of(*self),
    {
        match self {
            Error::Unauthenticated => "Unauthenticated".to_owned(),
            Error::Unauthorized => "Unauthorized".to_owned(),
            Error::CredentialsInvalid => "CredentialsInvalid".to_owned(),
            Error::HandleAlreadyExists => "HandleAlreadyExists".to_owned(),
            Error::JwtMalformed => "JwtMalformed".to_owned(),
            Error::JwtExpired => "JwtExpired".to_owned(),
            Error::JwtInvalid => "JwtInvalid".to_owned(),
            Error::WsInitNotObject => "WsInitNotObject".to_owned(),
            Error::WsInitTokenNotString => "WsInitTokenNotString".to_owned(),
            Error::ServerMisconfigured(_) => "ServerMisconfigured".to_owned(),
            Error::InternalServerError(_) => "InternalServerError".to_owned(),
            Error::NotImplemented => "NotImplemented".to_owned(),
        }
    }

    /// The client-visible message: the fixed template of the variant.
    pub fn message(&self) -> (r: String)
        ensures
            r@ == message_of(*self),
    {
        match self {
            Error::Unauthenticated => "Unauthenticated".to_owned(),
            Error::Unauthorized => "Unauthorized".to_owned(),
            Error::CredentialsInvalid => "Credentials are invalid".to_owned(),
            Error::HandleAlreadyExists => "Handle already exists".to_owned(),
            Error::JwtMalformed => "JWT is malformed".to_owned(),
            Error::JwtExpired => "JWT is expired".to_owned(),
            Error::JwtInvalid => "JWT is invalid".to_owned(),
            Error::WsInitNotObject => {
                "GraphQL WebSocket init must be an object, null, or undefined".to_owned()
            },
            Error::WsInitTokenNotString => {
                "GraphQL WebSocket init `token` must be a string or undefined".to_owned()
            },
            Error::ServerMisconfigured(_) => "The server is misconfigured".to_owned(),
            Error::InternalServerError(_) => "An internal server error occurred".to_owned(),
            Error::NotImplemented => "Feature is not implemented yet".to_owned(),
        }
    }

    /// The transport status of this kind, per the fixed table.
    pub fn status(&self) -> (r: u16)
        ensures
            r == status_of(*self),
    {
        match self {
            Error::Unauthenticated => 401,
            Error::CredentialsInvalid => 401,
            Error::JwtExpired => 401,
            Error::JwtInvalid => 401,
            Error::Unauthorized => 403,
            Error::HandleAlreadyExists => 409,
            Error::JwtMalformed => 400,
            Error::WsInitNotObject => 400,
            Error::WsInitTokenNotString => 400,
            Error::ServerMisconfigured(_) => 500,
            Error::InternalServerError(_) => 500,
            Error::NotImplemented => 500,
        }
    }

    /// The single log decision for this error: a record at error severity with
    /// full detail for the operator-facing kinds, a usage warning for
    /// `NotImplemented`, and nothing for ordinary client-facing conditions.
    pub fn log(&self) -> (r: Option<LogRecord>)
        ensures
            logged_correctly(*self, r),
    {
        match self {
            Error::ServerMisconfigured(d) => Some(
                LogRecord {
                    severity: Severity::Error,
                    text: "Server misconfigured: ".to_owned().concat(d.as_str()),
                },
            ),
            Error::InternalServerError(d) => Some(
                LogRecord {
                    severity: Severity::Error,
                    text: "Internal server error: ".to_owned().concat(d.as_str()),
                },
            ),
            Error::NotImplemented => Some(
                LogRecord {
                    severity: Severity::Warning,
                    text: "Unimplemented feature called".to_owned(),
                },
            ),
            _ => None,
        }
    }

    /// Boundary renderer: the transport status, the minimal client payload,
    /// and the single log record to emit, derived deterministically from the
    /// kind. This is the last point before the error leaves the process; the
    /// caller at each outbound edge emits the record once and sends the rest.
    pub fn render(self) -> (r: (u16, ErrorData, Option<LogRecord>))
        ensures
            r.0 == status_of(self),
            r.1.code@ == code_of(self),
            r.1.message@ == message_of(self),
            logged_correctly(self, r.2),
    {
        let log = self.log();
        let data = ErrorData { code: self.code(), message: self.message() };
        (self.status(), data, log)
    }
}

/// What the token-validation library reported, reduced to the classes the
/// taxonomy distinguishes. Each class carries exactly the plain values the
/// classification reads.
#[derive(Debug, Clone, PartialEq, Eq)]
pub enum JwtFailure {
    /// The token does not have a valid JWT shape.
    InvalidToken,
    /// The algorithm name did not parse.
    InvalidAlgorithmName,
    /// A key was provided in an invalid format.
    InvalidKeyFormat,
    /// The configured ECDSA key is not valid.
    InvalidEcdsaKey,
    /// The configured EdDSA key is not valid.
    InvalidEddsaKey,
    /// The configured RSA key is not valid; carries the library's reason.
    InvalidRsaKey(String),
    /// Signing with the configured RSA key failed.
    RsaFailedSigning,
    /// Signing failed; carries the library's reason.
    SigningFailed(String),
    /// The token's expiry claim lies in the past.
    ExpiredSignature,
    /// Any other structural, cryptographic or validation failure.
    Other,
}

#[verifier::external_type_specification]
#[verifier::external_body]
pub struct ExJwtError(JsonWebTokenError);

/// The class a token-validation error falls in: a function of the error
/// value alone, since the library stores the kind inside the error.
pub uninterp spec fn jwt_class_of(e: JsonWebTokenError) -> JwtFailure;

/// Relies on jsonwebtoken::errors::Error::kind and the ErrorKind enum: each
/// kind the classification distinguishes is carried over one-for-one, with
/// its reason text where the kind holds one; every other kind becomes
/// `Other`.
#[verifier::external_body]
fn jwt_failure(err: &JsonWebTokenError) -> (r: JwtFailure)
    ensures
        r == jwt_class_of(*err),
{
    match err.kind() {
        jsonwebtoken::errors::ErrorKind::InvalidToken => JwtFailure::InvalidToken,
        jsonwebtoken::errors::ErrorKind::InvalidAlgorithmName => JwtFailure::InvalidAlgorithmName,
        jsonwebtoken::errors::ErrorKind::InvalidKeyFormat => JwtFailure::InvalidKeyFormat,
        jsonwebtoken::errors::ErrorKind::InvalidEcdsaKey => JwtFailure::InvalidEcdsaKey,
        jsonwebtoken::errors::ErrorKind::InvalidEddsaKey => JwtFailure::InvalidEddsaKey,
        jsonwebtoken::errors::ErrorKind::InvalidRsaKey(d) => JwtFailure::InvalidRsaKey(d.clone()),
        jsonwebtoken::errors::ErrorKind::RsaFailedSigning => JwtFailure::RsaFailedSigning,
        jsonwebtoken::errors::ErrorKind::Signing(d) => JwtFailure::SigningFailed(d.clone()),
        jsonwebtoken::errors::ErrorKind::ExpiredSignature => JwtFailure::ExpiredSignature,
        _ => JwtFailure::Other,
    }
}

/// The kinds a token-validation failure can classify to.
pub open spec fn jwt_outcome(r: Error) -> bool {
    ||| r == Error::JwtMalformed
    ||| r matches Error::ServerMisconfigured(_)
    ||| r == Error::JwtExpired
    ||| r == Error::JwtInvalid
}

/// The classification rule for token-validation failures: which kind each
/// class maps to, and what detail it carries.
pub open spec fn classifies_jwt(f: JwtFailure, r: Error) -> bool {
    match f {
        JwtFailure::InvalidToken => r == Error::JwtMalformed,
        JwtFailure::InvalidAlgorithmName => r == Error::JwtMalformed,
        JwtFailure::InvalidKeyFormat => r == Error::JwtMalformed,
        JwtFailure::InvalidEcdsaKey => r matches Error::ServerMisconfigured(d) && d@
            == "EcDSA key invalid"@,
        JwtFailure::InvalidEddsaKey => r matches Error::ServerMisconfigured(d) && d@
            == "EdDSA key invalid"@,
        JwtFailure::InvalidRsaKey(m) => r matches Error::ServerMisconfigured(d) && d@
            == "RSA key is invalid: "@ + m@,
        JwtFailure::RsaFailedSigning => r matches Error::ServerMisconfigured(d) && d@
            == "RSA signing failed"@,
        JwtFailure::SigningFailed(m) => r matches Error::ServerMisconfigured(d) && d@
            == "Signing failed: "@ + m@,
        JwtFailure::ExpiredSignature => r == Error::JwtExpired,
        JwtFailure::Other => r == Error::JwtInvalid,
    }
}

/// What the storage engine reported, reduced to the one distinction the
/// taxonomy makes: the engine's own setup/configuration failure path versus
/// everything else. Each side carries the engine's message.
#[derive(Debug, Clone, PartialEq, Eq)]
pub enum StorageFailure {
    /// The engine reported a configuration failure: its deployed setup itself
    /// is broken.
    Configuration(String),
    /// Any other storage failure: transient, or incorrect logic.
    Other(String),
}

/// The classification rule for storage failures: the engine's own setup
/// failure becomes operator-facing, everything else a generic incident, the
/// engine's message carried as detail either way.
pub open spec fn classifies_storage(f: StorageFailure, r: Error) -> bool {
    match f {
        StorageFailure::Configuration(m) => r matches Error::ServerMisconfigured(d) && d@ == m@,
        StorageFailure::Other(m) => r matches Error::InternalServerError(d) && d@ == m@,
    }
}

#[verifier::external_type_specification]
#[verifier::external_body]
pub struct ExSurrealError(SurrealError);

/// The side a storage error falls on, with its message: a function of the
/// error value alone, since the engine stores details and message inside it.
pub uninterp spec fn storage_class_of(e: SurrealError) -> StorageFailure;

/// Relies on surrealdb::Error::details and ::message: an error whose details
/// are of the Configuration kind comes from the engine's own setup path;
/// every error carries a human-readable message.
#[verifier::external_body]
fn storage_failure(err: &SurrealError) -> (r: StorageFailure)
    ensures
        r == storage_class_of(*err),
{
    match err.details() {
        surrealdb::types::ErrorDetails::Configuration(_) => {
            StorageFailure::Configuration(err.message().to_owned())
        },
        _ => StorageFailure::Other(err.message().to_owned()),
    }
}

#[verifier::external_type_specification]
#[verifier::external_body]
pub struct ExDecodeError(base64::DecodeError);

impl Error {
    /// Token-validation adapter, on the classes of [`JwtFailure`]: structural
    /// and key-format failures are client-caused (`JwtMalformed`); broken
    /// deployed key material and signing failures are operator-caused
    /// (`ServerMisconfigured`); an expired signature is its own kind; every
    /// other failure folds into the `JwtInvalid` catch-all.
    pub fn from_jwt_failure(f: JwtFailure) -> (r: Self)
        ensures
            classifies_jwt(f, r),
            jwt_outcome(r),
    {
        match f {
            JwtFailure::InvalidToken => Error::JwtMalformed,
            JwtFailure::InvalidAlgorithmName => Error::JwtMalformed,
            JwtFailure::InvalidKeyFormat => Error::JwtMalformed,
            JwtFailure::InvalidEcdsaKey => Error::ServerMisconfigured(
                "EcDSA key invalid".to_owned(),
            ),
            JwtFailure::InvalidEddsaKey => Error::ServerMisconfigured(
                "EdDSA key invalid".to_owned(),
            ),
            JwtFailure::InvalidRsaKey(m) => Error::ServerMisconfigured(
                "RSA key is invalid: ".to_owned().concat(m.as_str()),
            ),
            JwtFailure::RsaFailedSigning => Error::ServerMisconfigured(
                "RSA signing failed".to_owned(),
            ),
            JwtFailure::SigningFailed(m) => Error::ServerMisconfigured(
                "Signing failed: ".to_owned().concat(m.as_str()),
            ),
            JwtFailure::ExpiredSignature => Error::JwtExpired,
            JwtFailure::Other => Error::JwtInvalid,
        }
    }

    /// Token-validation adapter on the library's own error type: total, and
    /// classifies the error's own class by the classification rule.
    pub fn from_jwt(err: JsonWebTokenError) -> (r: Self)
        ensures
            classifies_jwt(jwt_class_of(err), r),
            jwt_outcome(r),
    {
        Self::from_jwt_failure(jwt_failure(&err))
    }

    /// Storage adapter, on the classes of [`StorageFailure`]: only the
    /// engine's own setup failure is operator-actionable; everything else is
    /// an incident, logged and reported generically.
    pub fn from_storage_failure(f: StorageFailure) -> (r: Self)
        ensures
            classifies_storage(f, r),
    {
        match f {
            StorageFailure::Configuration(m) => Error::ServerMisconfigured(m),
            StorageFailure::Other(m) => Error::InternalServerError(m),
        }
    }

    /// Storage adapter on the engine's own error type: total, and classifies
    /// the error's own side by the classification rule.
    pub fn from_storage(err: SurrealError) -> (r: Self)
        ensures
            classifies_storage(storage_class_of(err), r),
    {
        Self::from_storage_failure(storage_failure(&err))
    }

    /// Cryptographic-verification adapter: any failure of signature/MAC
    /// verification collapses to `CredentialsInvalid`, deliberately
    /// discarding the underlying reason so that no failure is distinguishable
    /// from any other.
    pub fn from_crypto(_err: ring::error::Unspecified) -> (r: Self)
        ensures
            r == Error::CredentialsInvalid,
    {
        Error::CredentialsInvalid
    }

    /// Encoding adapter: any decoding failure becomes `InternalServerError`
    /// with the decoder's rendered description preserved as detail.
    pub fn from_base64(err: base64::DecodeError) -> (r: Self)
        ensures
            r matches Error::InternalServerError(d)
                && vstd::string::to_string_from_display_ensures::<base64::DecodeError>(&err, d),
    {
        Self::from_err(err)
    }
}

/// `needle` occurs contiguously somewhere in `hay`.
pub open spec fn is_substring(needle: Seq<char>, hay: Seq<char>) -> bool {
    exists|i: int|
        0 <= i && i + needle.len() <= hay.len() && #[trigger] hay.subrange(i, i + needle.len())
            == needle
}

/// Law: every kind maps to exactly the status of the fixed table, and the
/// status is always one of the five documented ones.
pub proof fn lemma_status_table(e: Error)
    ensures
        (e == Error::Unauthenticated || e == Error::CredentialsInvalid || e == Error::JwtExpired
            || e == Error::JwtInvalid) ==> status_of(e) == 401,
        e == Error::Unauthorized ==> status_of(e) == 403,
        e == Error::HandleAlreadyExists ==> status_of(e) == 409,
        (e == Error::JwtMalformed || e == Error::WsInitNotObject || e == Error::WsInitTokenNotString)
            ==> status_of(e) == 400,
        (e matches Error::ServerMisconfigured(_) || e matches Error::InternalServerError(_)
            || e == Error::NotImplemented) ==> status_of(e) == 500,
        status_of(e) == 400 || status_of(e) == 401 || status_of(e) == 403 || status_of(e) == 409
            || status_of(e) == 500,
{
}

/// Law: for the two detail-carrying kinds, the rendered client message and
/// code are fixed templates independent of the detail, so whenever the detail
/// is not already a fragment of the template it cannot occur in the client
/// message; the log record, by contrast, always carries the detail verbatim.
pub proof fn lemma_detail_confined(d: String)
    ensures
        message_of(Error::ServerMisconfigured(d)) == "The server is misconfigured"@,
        message_of(Error::InternalServerError(d)) == "An internal server error occurred"@,
        code_of(Error::ServerMisconfigured(d)) == "ServerMisconfigured"@,
        code_of(Error::InternalServerError(d)) == "InternalServerError"@,
        !is_substring(d@, "The server is misconfigured"@) ==> !is_substring(
            d@,
            message_of(Error::ServerMisconfigured(d)),
        ),
        !is_substring(d@, "An internal server error occurred"@) ==> !is_substring(
            d@,
            message_of(Error::InternalServerError(d)),
        ),
        is_substring(d@, log_text_of(Error::ServerMisconfigured(d))),
        is_substring(d@, log_text_of(Error::InternalServerError(d))),
{
    let p1 = "Server misconfigured: "@;
    let p2 = "Internal server error: "@;
    assert((p1 + d@).subrange(p1.len() as int, p1.len() + d@.len() as int) =~= d@);
    assert((p2 + d@).subrange(p2.len() as int, p2.len() + d@.len() as int) =~= d@);
}

} // verus!
