//! The request/response envelope and the method dispatcher.
//!
//! A message wraps a typed payload with a caller-supplied nonce: pure
//! correlation data, opaque to the server, echoed back unchanged in the
//! matching response. The method union is matched exhaustively, so an
//! unhandled operation is a build-time error, not a runtime one.

pub mod account;

use account::{AccountStore, LoginRes};
use crate::crypto::MAX_CREDENTIAL_LEN;
use vstd::prelude::*;
use vstd::string::StringSliceAdditionalSpecFns;

verus! {

/// The request/response envelope: a correlation nonce and the typed payload.
#[derive(Debug)]
pub struct Message<T> {
    pub nonce: u64,
    pub payload: T,
}

/// The supported operations; the tag selects the handler.
#[derive(Debug, Clone, Copy)]
pub enum Method<'a> {
    Account(account::Method<'a>),
}

/// The typed result of a dispatched operation.
#[derive(Debug)]
pub enum Response {
    Account(LoginRes),
}

/// Dispatches one request envelope: the nonce is copied unchanged into the
/// response, and the payload's tag selects the handler, exhaustively.
pub fn dispatch<'a>(store: &AccountStore, msg: Message<Method<'a>>) -> (r: Message<Response>)
    requires
        store.wf(),
    ensures
        r.nonce == msg.nonce,
        msg.payload matches Method::Account(account::Method::Login(req)) ==> {
            &&& r.payload matches Response::Account(lr)
            &&& (req.pword.spec_bytes().len() < MAX_CREDENTIAL_LEN as nat ==> store.login_ok(
                req.uname@,
                req.pword@,
                lr,
            ))
            &&& (lr matches LoginRes::Success(a) ==> store.cred_ok(req.uname@, req.pword@) && a
                == store.account_for(req.uname@))
        },
{
    let nonce = msg.nonce;
    match msg.payload {
        Method::Account(account::Method::Login(req)) => {
            let res = store.login(&req);
            Message { nonce, payload: Response::Account(res) }
        },
    }
}

} // verus!
