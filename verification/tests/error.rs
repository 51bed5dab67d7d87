use quack_rs::error::{check_no_interior_nul, ExtResult, ExtensionError};

#[test]
fn new_creates_with_message() {
    let err = ExtensionError::new("test error");
    assert_eq!(err.to_string(), "test error");
    assert_eq!(err.as_str(), "test error");
}

#[test]
fn from_str() {
    let err = ExtensionError::from("from str");
    assert_eq!(err.as_str(), "from str");
}

#[test]
fn from_string() {
    let s = String::from("from String");
    let err = ExtensionError::from(s);
    assert_eq!(err.as_str(), "from String");
}

#[test]
fn from_error_wraps_display() {
    let parse_err = "abc".parse::<i32>().unwrap_err();
    let err = ExtensionError::from_error(parse_err);
    assert_ne!(err.as_str(), "");
}

#[test]
fn to_c_string_normal() {
    let err = ExtensionError::new("hello world");
    let cstr = err.to_c_string();
    assert_eq!(cstr.as_str(), "hello world");
}

#[test]
fn to_c_string_with_null_byte() {
    // An embedded null byte is replaced, keeping the rest of the message.
    let err = ExtensionError::new("before\0after");
    let cstr = err.to_c_string();
    assert_eq!(cstr.as_str(), "before?after");
}

#[test]
fn to_c_string_empty() {
    let err = ExtensionError::new("");
    let cstr = err.to_c_string();
    assert_eq!(cstr.as_str(), "");
}

#[test]
fn display_impl() {
    let err = ExtensionError::new("display test");
    let s = err.to_string();
    assert_eq!(s, "display test");
}

#[test]
fn debug_impl() {
    let err = ExtensionError::new("debug");
    let s = format!("{err:?}");
    assert!(s.contains("debug"));
}

#[test]
fn clone_eq() {
    let err1 = ExtensionError::new("clone test");
    let err2 = err1.clone();
    assert_eq!(err1, err2);
}

#[test]
fn question_mark_operator_with_str() {
    fn fails() -> Result<(), ExtensionError> {
        Err("explicit error")?;
        Ok(())
    }
    assert_eq!(fails().unwrap_err().as_str(), "explicit error");
}

#[test]
fn from_io_error() {
    let io_err = std::io::Error::new(std::io::ErrorKind::NotFound, "file not found");
    let err = ExtensionError::from(io_err);
    assert_eq!(err.as_str(), "file not found");
}

#[test]
fn question_mark_with_io_error() {
    fn fails() -> Result<(), ExtensionError> {
        Err(std::io::Error::other("runtime init failed"))?;
        Ok(())
    }
    assert_eq!(fails().unwrap_err().as_str(), "runtime init failed");
}

#[test]
fn from_fmt_error() {
    let fmt_err = std::fmt::Error;
    let err = ExtensionError::from(fmt_err);
    assert_ne!(err.as_str(), "");
}

#[test]
fn to_c_string_leading_null_byte() {
    let err = ExtensionError::new("\0trailing");
    let cstr = err.to_c_string();
    assert_eq!(cstr.as_str(), "?trailing");
}

#[test]
fn to_c_string_multiple_null_bytes() {
    let err = ExtensionError::new("first\0second\0third");
    let cstr = err.to_c_string();
    assert_eq!(cstr.as_str(), "first?second?third");
}

#[test]
fn ext_result_alias() {
    let ok_val: ExtResult<i32> = Ok(42);
    assert!(ok_val.is_ok());

    let err_val: ExtResult<i32> = Err(ExtensionError::new("fail"));
    assert!(err_val.is_err());
}

#[test]
fn a_string_with_an_interior_nul_cannot_become_a_c_string() {
    let err = check_no_interior_nul("a\0b", "contains NUL").unwrap_err();
    assert_eq!(err.as_str(), "contains NUL");
    assert!(check_no_interior_nul("ab", "contains NUL").is_ok());
    assert!(check_no_interior_nul("", "contains NUL").is_ok());
}

#[test]
fn from_error_keeps_the_display_text() {
    let io_err = std::io::Error::other("disk on fire");
    assert_eq!(ExtensionError::from_error(io_err).as_str(), "disk on fire");
}
