use service_core::api::account::{Account, AccountStore, LoginReq, LoginRes, Method as AccountMethod};
use service_core::api::{dispatch, Message, Method, Response};
use service_core::error::Error;

fn store_with_alice() -> AccountStore {
    let mut store = AccountStore::new(b"test-sealing-key".to_vec());
    let account = Account {
        id: "alice-id".to_string(),
        name: Some("Alice".to_string()),
    };
    store.add_account("alice", "correct", account).unwrap();
    store
}

#[test]
fn login_with_right_password_succeeds() {
    let store = store_with_alice();
    let res = store.login(&LoginReq { uname: "alice", pword: "correct" });
    assert_eq!(
        res,
        LoginRes::Success(Account {
            id: "alice-id".to_string(),
            name: Some("Alice".to_string()),
        })
    );
}

#[test]
fn login_with_wrong_password_fails() {
    let store = store_with_alice();
    let res = store.login(&LoginReq { uname: "alice", pword: "wrong" });
    assert_eq!(res, LoginRes::Failed);
}

#[test]
fn unknown_handle_and_wrong_password_are_indistinguishable() {
    let store = store_with_alice();
    let unknown = store.login(&LoginReq { uname: "bob", pword: "correct" });
    let wrong = store.login(&LoginReq { uname: "alice", pword: "wrong" });
    assert_eq!(unknown, LoginRes::Failed);
    assert_eq!(wrong, LoginRes::Failed);
    assert_eq!(unknown, wrong);
}

#[test]
fn duplicate_handle_is_refused() {
    let mut store = store_with_alice();
    let account = Account { id: "other-id".to_string(), name: None };
    let res = store.add_account("alice", "other", account);
    assert_eq!(res, Err(Error::HandleAlreadyExists));
    let still = store.login(&LoginReq { uname: "alice", pword: "correct" });
    assert!(matches!(still, LoginRes::Success(_)));
}

#[test]
fn passwords_do_not_cross_accounts() {
    let mut store = store_with_alice();
    let account = Account { id: "bob-id".to_string(), name: None };
    store.add_account("bob", "hunter2", account).unwrap();
    assert_eq!(
        store.login(&LoginReq { uname: "bob", pword: "correct" }),
        LoginRes::Failed
    );
    assert_eq!(
        store.login(&LoginReq { uname: "alice", pword: "hunter2" }),
        LoginRes::Failed
    );
    assert!(matches!(
        store.login(&LoginReq { uname: "bob", pword: "hunter2" }),
        LoginRes::Success(_)
    ));
}

#[test]
fn dispatch_echoes_nonce_unchanged() {
    let store = store_with_alice();
    let msg = Message {
        nonce: 0xDEAD_BEEF_1234_5678,
        payload: Method::Account(AccountMethod::Login(LoginReq {
            uname: "alice",
            pword: "correct",
        })),
    };
    let res = dispatch(&store, msg);
    assert_eq!(res.nonce, 0xDEAD_BEEF_1234_5678);
    let Response::Account(login) = res.payload;
    assert!(matches!(login, LoginRes::Success(_)));
}

#[test]
fn dispatch_returns_failed_for_bad_credentials() {
    let store = store_with_alice();
    let msg = Message {
        nonce: 7,
        payload: Method::Account(AccountMethod::Login(LoginReq {
            uname: "alice",
            pword: "wrong",
        })),
    };
    let res = dispatch(&store, msg);
    assert_eq!(res.nonce, 7);
    let Response::Account(login) = res.payload;
    assert_eq!(login, LoginRes::Failed);
}
