use sensevoice::path::path_to_cstring;
use sensevoice::{FilePath, SenseVoiceError};

#[test]
fn a_path_is_ended_by_a_zero() {
    let string = path_to_cstring(&FilePath::from("models/a.gguf")).unwrap();
    assert_eq!(string.as_bytes_with_nul(), b"models/a.gguf\0");
}

#[test]
fn an_empty_path_is_a_lone_zero() {
    let string = path_to_cstring(&FilePath::from("")).unwrap();
    assert_eq!(string.as_bytes_with_nul(), b"\0");
}

#[test]
fn a_path_beyond_ascii_keeps_its_bytes() {
    let string = path_to_cstring(&FilePath::from(String::from("模型/é"))).unwrap();
    assert_eq!(string.as_bytes_with_nul(), "模型/é\0".as_bytes());
}

#[test]
fn a_path_with_a_zero_is_refused() {
    let error = path_to_cstring(&FilePath::from("a\0b")).unwrap_err();
    assert_eq!(error.to_string(), "path contains NUL byte: a\0b");
}

#[test]
fn a_path_that_is_not_utf8_is_refused() {
    let error = path_to_cstring(&FilePath::from_bytes(vec![b'a', 0xff, b'b'])).unwrap_err();
    assert_eq!(error.to_string(), "path is not valid UTF-8: a\u{fffd}b");
}

#[test]
fn a_path_that_is_not_utf8_is_refused_for_that_before_its_zero() {
    let error = path_to_cstring(&FilePath::from_bytes(vec![0, 0x80])).unwrap_err();
    assert_eq!(error.to_string(), "path is not valid UTF-8: \0\u{fffd}");
}

#[test]
fn a_path_is_text_only_where_it_is_utf8() {
    assert_eq!(FilePath::from("ü").to_str(), Some(String::from("ü")));
    assert_eq!(FilePath::from_bytes(vec![0xc3]).to_str(), None);
    assert_eq!(FilePath::from_bytes(vec![0xc3]).display(), "\u{fffd}");
    assert_eq!(FilePath::from("ü").as_bytes(), &[0xc3, 0xbc]);
    assert_eq!(FilePath::from("ü").clone().as_bytes(), &[0xc3, 0xbc]);
}

#[test]
fn errors_are_equal_by_their_messages() {
    let error = SenseVoiceError::new(String::from("no model"));
    assert_eq!(error, SenseVoiceError::about("no ", "model"));
    assert_eq!(error.clone(), error);
    assert_ne!(error, SenseVoiceError::new(String::from("no models")));
    assert_eq!(error.to_string(), "no model");
}
