use specinfra::error::Error;
use specinfra::output::Output;

#[test]
fn bool_accessor_matches_only_bool() {
    assert_eq!(Output::to_bool(Output::Bool(true)).unwrap(), true);
    assert!(matches!(Output::to_bool(Output::I32(1)), Err(Error::TypeMismatch)));
    assert!(matches!(Output::to_bool(Output::I64(1)), Err(Error::TypeMismatch)));
    assert!(matches!(Output::to_bool(Output::Text("x".to_string())), Err(Error::TypeMismatch)));
}

#[test]
fn i32_accessor_matches_only_i32() {
    assert_eq!(Output::to_i32(Output::I32(-7)).unwrap(), -7);
    assert!(matches!(Output::to_i32(Output::Bool(false)), Err(Error::TypeMismatch)));
    assert!(matches!(Output::to_i32(Output::I64(3)), Err(Error::TypeMismatch)));
    assert!(matches!(Output::to_i32(Output::Text("3".to_string())), Err(Error::TypeMismatch)));
}

#[test]
fn i64_accessor_matches_only_i64() {
    assert_eq!(Output::to_i64(Output::I64(1 << 40)).unwrap(), 1 << 40);
    assert!(matches!(Output::to_i64(Output::I32(3)), Err(Error::TypeMismatch)));
    assert!(matches!(Output::to_i64(Output::Bool(true)), Err(Error::TypeMismatch)));
    assert!(matches!(Output::to_i64(Output::Text("3".to_string())), Err(Error::TypeMismatch)));
}

#[test]
fn text_accessor_matches_only_text() {
    assert_eq!(Output::to_string(Output::Text("root".to_string())).unwrap(), "root");
    assert!(matches!(Output::to_string(Output::I32(0)), Err(Error::TypeMismatch)));
    assert!(matches!(Output::to_string(Output::I64(0)), Err(Error::TypeMismatch)));
    assert!(matches!(Output::to_string(Output::Bool(true)), Err(Error::TypeMismatch)));
}
