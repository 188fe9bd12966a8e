use service_core::error::Error;
use service_core::ws_init::{validate, InitPayload, InitTokenField};

#[test]
fn init_absent_is_accepted() {
    assert_eq!(validate(InitPayload::Absent), Ok(None));
}

#[test]
fn init_null_is_accepted() {
    assert_eq!(validate(InitPayload::Null), Ok(None));
}

#[test]
fn init_object_without_token_is_accepted() {
    assert_eq!(validate(InitPayload::Object(InitTokenField::Absent)), Ok(None));
}

#[test]
fn init_object_with_string_token_hands_it_back() {
    let res = validate(InitPayload::Object(InitTokenField::Text("tok-1".to_string())));
    assert_eq!(res, Ok(Some("tok-1".to_string())));
}

#[test]
fn init_token_of_wrong_type_is_a_bad_request() {
    let err = validate(InitPayload::Object(InitTokenField::NotText)).unwrap_err();
    assert_eq!(err, Error::WsInitTokenNotString);
    assert_eq!(err.status(), 400);
}

#[test]
fn init_non_object_is_a_bad_request() {
    let err = validate(InitPayload::NotObject).unwrap_err();
    assert_eq!(err, Error::WsInitNotObject);
    assert_eq!(err.status(), 400);
}
