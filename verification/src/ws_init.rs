//! Validation of the protocol-initialization payload of the GraphQL
//! WebSocket sub-protocol.
//!
//! The payload must be an object, null, or absent; an object's `token` field,
//! if present, must be a string. Violations map to the two protocol-init
//! kinds of the taxonomy, both rendered as bad requests.

use crate::error::Error;
use vstd::prelude::*;

verus! {

/// The `token` field of an init object, as the validation reads it.
#[derive(Debug, Clone, PartialEq, Eq)]
pub enum InitTokenField {
    /// The object has no `token` field.
    Absent,
    /// The `token` field holds this string.
    Text(String),
    /// The `token` field holds a value of some other type.
    NotText,
}

/// A protocol-init payload, as the validation reads it.
#[derive(Debug, Clone, PartialEq, Eq)]
pub enum InitPayload {
    /// No init payload was sent.
    Absent,
    /// The payload is null.
    Null,
    /// The payload is an object, with its optional `token` field.
    Object(InitTokenField),
    /// The payload is some other value: not an object and not null.
    NotObject,
}

/// Accepts an absent or null payload and an object whose `token` field is a
/// string or absent, handing back the token if one was sent; rejects any
/// other shape with the matching protocol-init kind.
pub fn validate(payload: InitPayload) -> (r: Result<Option<String>, Error>)
    ensures
        (match payload {
            InitPayload::Absent => r matches Ok(t) && t is None,
            InitPayload::Null => r matches Ok(t) && t is None,
            InitPayload::NotObject => r matches Err(e) && e == Error::WsInitNotObject,
            InitPayload::Object(f) => (match f {
                InitTokenField::Absent => r matches Ok(t) && t is None,
                InitTokenField::Text(s) => r matches Ok(t) && t matches Some(tok) && tok@ == s@,
                InitTokenField::NotText => r matches Err(e) && e == Error::WsInitTokenNotString,
            }),
        }),
{
    match payload {
        InitPayload::Absent => Ok(None),
        InitPayload::Null => Ok(None),
        InitPayload::NotObject => Err(Error::WsInitNotObject),
        InitPayload::Object(f) => match f {
            InitTokenField::Absent => Ok(None),
            InitTokenField::Text(s) => Ok(Some(s)),
            InitTokenField::NotText => Err(Error::WsInitTokenNotString),
        },
    }
}

} // verus!
