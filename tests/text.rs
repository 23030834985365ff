use coqui_stt::{nul_terminated, text_from_native, transcript_text, Error};

#[test]
fn plain_string_gets_a_final_nul() {
    assert_eq!(nul_terminated("model.tflite").unwrap(), b"model.tflite\0".to_vec());
}

#[test]
fn empty_string_is_a_lone_nul() {
    assert_eq!(nul_terminated("").unwrap(), vec![0u8]);
}

#[test]
fn non_ascii_string_is_encoded_as_utf8() {
    assert_eq!(nul_terminated("é").unwrap(), vec![0xc3, 0xa9, 0]);
}

#[test]
fn embedded_nul_is_refused() {
    assert!(matches!(nul_terminated("hot\0word"), Err(Error::NulBytesFound)));
    assert!(matches!(nul_terminated("\0"), Err(Error::NulBytesFound)));
    assert!(matches!(nul_terminated("scorer\0"), Err(Error::NulBytesFound)));
}

#[test]
fn missing_text_is_unknown() {
    assert!(matches!(text_from_native(None), Err(Error::Unknown)));
}

#[test]
fn valid_text_is_decoded() {
    assert_eq!(text_from_native(Some(b"hello world".to_vec())).unwrap(), "hello world");
    assert_eq!(text_from_native(Some(vec![0xc3, 0xa9])).unwrap(), "é");
    assert_eq!(text_from_native(Some(Vec::new())).unwrap(), "");
}

#[test]
fn invalid_text_is_a_utf8_error() {
    assert!(matches!(text_from_native(Some(vec![b'a', 0xff])), Err(Error::Utf8Error(_))));
}

#[test]
fn transcript_text_spaces_each_token() {
    let tokens = vec!["h".to_string(), "i".to_string(), "!".to_string()];
    assert_eq!(transcript_text(&tokens), "h i ! ");
    assert_eq!(transcript_text(&Vec::new()), "");
}
