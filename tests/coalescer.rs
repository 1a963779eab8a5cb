use mastodon::json::{DecodeError, Json};
use mastodon::nullbool::de;

#[test]
fn null_bool_true_is_true() {
    assert_eq!(de(&Json::Bool(true), "reblogged"), Ok(true));
}

#[test]
fn null_bool_false_is_false() {
    assert_eq!(de(&Json::Bool(false), "reblogged"), Ok(false));
}

#[test]
fn null_bool_null_is_false() {
    assert_eq!(de(&Json::Null, "favourited"), Ok(false));
}

#[test]
fn null_bool_string_fails() {
    assert_eq!(
        de(&Json::Str("x".to_string()), "favourited"),
        Err(DecodeError::InvalidType("favourited"))
    );
}

#[test]
fn null_bool_number_fails() {
    assert_eq!(
        de(&Json::Number(Some(1)), "reblogged"),
        Err(DecodeError::InvalidType("reblogged"))
    );
}
