use coqui_stt::{check_status, Error};

#[test]
fn success_code_maps_to_none() {
    assert!(Error::from_c_int(0).is_none());
    assert!(check_status(0).is_ok());
}

#[test]
fn known_codes_map_to_named_kinds() {
    assert!(matches!(Error::from_c_int(0x1000), Some(Error::NoModel)));
    assert!(matches!(Error::from_c_int(0x2000), Some(Error::InvalidAlphabet)));
    assert!(matches!(Error::from_c_int(0x2001), Some(Error::InvalidShape)));
    assert!(matches!(Error::from_c_int(0x2002), Some(Error::InvalidScorer)));
    assert!(matches!(Error::from_c_int(0x2003), Some(Error::ModelIncompatible)));
    assert!(matches!(Error::from_c_int(0x2004), Some(Error::ScorerNotEnabled)));
    assert!(matches!(Error::from_c_int(0x2005), Some(Error::ScorerUnreadable)));
    assert!(matches!(Error::from_c_int(0x2006), Some(Error::ScorerInvalidHeader)));
    assert!(matches!(Error::from_c_int(0x2007), Some(Error::ScorerNoTrie)));
    assert!(matches!(Error::from_c_int(0x2008), Some(Error::ScorerInvalidTrie)));
    assert!(matches!(Error::from_c_int(0x2009), Some(Error::ScorerVersionMismatch)));
    assert!(matches!(Error::from_c_int(0x3000), Some(Error::InitMmapFailed)));
    assert!(matches!(Error::from_c_int(0x3001), Some(Error::InitSessionFailed)));
    assert!(matches!(Error::from_c_int(0x3002), Some(Error::InterpreterFailed)));
    assert!(matches!(Error::from_c_int(0x3003), Some(Error::RunSessionFailed)));
    assert!(matches!(Error::from_c_int(0x3004), Some(Error::CreateStreamFailed)));
    assert!(matches!(Error::from_c_int(0x3005), Some(Error::ReadProtoBufFailed)));
    assert!(matches!(Error::from_c_int(0x3006), Some(Error::CreateSessionFailed)));
    assert!(matches!(Error::from_c_int(0x3007), Some(Error::CreateModelFailed)));
    assert!(matches!(Error::from_c_int(0x3008), Some(Error::InsertHotWordFailed)));
    assert!(matches!(Error::from_c_int(0x3009), Some(Error::ClearHotWordsFailed)));
    assert!(matches!(Error::from_c_int(0x3010), Some(Error::EraseHotWordFailed)));
}

#[test]
fn unknown_codes_keep_their_value() {
    assert!(matches!(Error::from_c_int(1), Some(Error::Other(1))));
    assert!(matches!(Error::from_c_int(-7), Some(Error::Other(-7))));
    assert!(matches!(Error::from_c_int(0x300A), Some(Error::Other(0x300A))));
    assert!(matches!(Error::from_c_int(i32::MAX), Some(Error::Other(i32::MAX))));
}

#[test]
fn failing_status_becomes_its_error() {
    assert!(matches!(check_status(0x2004), Err(Error::ScorerNotEnabled)));
    assert!(matches!(check_status(0x3008), Err(Error::InsertHotWordFailed)));
    assert!(matches!(check_status(42), Err(Error::Other(42))));
}

#[test]
fn messages_describe_each_kind() {
    assert_eq!(Error::InvalidShape.message(), "Invalid model shape.");
    assert_eq!(
        Error::ScorerNoTrie.message(),
        "Reached end of scorer file before loading vocabulary trie."
    );
    assert_eq!(Error::Other(5).message(), "An unknown error was returned.");
    assert_eq!(Error::Unknown.message(), "An unknown error was returned.");
    assert_eq!(
        Error::WorkerUnavailable.message(),
        "The worker thread that owned the stream is gone."
    );
}

#[test]
fn utf8_error_converts_and_describes_itself() {
    let bad = String::from_utf8(vec![0xff, 0xfe]).unwrap_err();
    let detail = bad.to_string();
    let e = Error::from(bad);
    assert!(matches!(e, Error::Utf8Error(_)));
    assert_eq!(
        e.message(),
        format!("A string returned by `libstt` contained invalid UTF-8: {}", detail)
    );
    assert_eq!(
        e.message(),
        "A string returned by `libstt` contained invalid UTF-8: invalid utf-8 sequence of 1 bytes from index 0"
    );
    let copy = e.clone();
    assert!(matches!(copy, Error::Utf8Error(_)));
}
