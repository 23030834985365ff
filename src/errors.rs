use vstd::prelude::*;
use vstd::string::StringExecFns;

verus! {

/// std's error for bytes that are not UTF-8; carried inside [`Error::Utf8Error`].
#[verifier::external_type_specification]
#[verifier::external_body]
pub struct ExFromUtf8Error(std::string::FromUtf8Error);

/// Relies on `<FromUtf8Error as Clone>::clone`, which the derived `Clone` of
/// [`Error`] calls; nothing is claimed of the copy.
pub assume_specification[ <std::string::FromUtf8Error as Clone>::clone ](
    e: &std::string::FromUtf8Error,
) -> std::string::FromUtf8Error;

/// Status code with which the native layer reports success.
pub const STATUS_OK: i32 = 0;

/// Every error this library reports: the native layer's status codes, mapped
/// one for one, and the failures the library detects on its own side.
#[derive(Clone, Debug)]
#[non_exhaustive]
pub enum Error {
    /// Missing model information.
    NoModel,
    /// Invalid alphabet embedded in model. (Data corruption?)
    InvalidAlphabet,
    /// Invalid model shape.
    InvalidShape,
    /// Invalid scorer file.
    InvalidScorer,
    /// Incompatible model.
    ModelIncompatible,
    /// External scorer is not enabled.
    ScorerNotEnabled,
    /// Could not read scorer file.
    ScorerUnreadable,
    /// Could not recognize language model header in scorer.
    ScorerInvalidHeader,
    /// Reached end of scorer file before loading vocabulary trie.
    ScorerNoTrie,
    /// Invalid magic in trie header.
    ScorerInvalidTrie,
    /// Scorer file version does not match expected version.
    ScorerVersionMismatch,
    /// Failed to initialize memory mapped model.
    InitMmapFailed,
    /// Failed to initialize the session.
    InitSessionFailed,
    /// Interpreter failed.
    InterpreterFailed,
    /// Failed to run the session.
    RunSessionFailed,
    /// Error creating the stream.
    CreateStreamFailed,
    /// Error reading the proto buffer model file.
    ReadProtoBufFailed,
    /// Failed to create session.
    CreateSessionFailed,
    /// Could not allocate model state.
    CreateModelFailed,
    /// Could not insert hot-word.
    InsertHotWordFailed,
    /// Could not clear hot-words.
    ClearHotWordsFailed,
    /// Could not erase hot-word.
    EraseHotWordFailed,
    /// A status code the library does not know; the raw value is kept.
    Other(i32),
    /// A native call failed without saying why (it returned nothing).
    Unknown,
    /// Null bytes were found in a string passed in.
    NulBytesFound,
    /// A string returned by the native layer contained invalid UTF-8.
    Utf8Error(std::string::FromUtf8Error),
    /// The worker that owns a confined stream is gone: it finished, or it died.
    WorkerUnavailable,
}

/// Type alias of the standard `Result` type to this crate's [`Error`] type.
pub type Result<T> = core::result::Result<T, Error>;

/// What a native status code means: `None` for success, else the error kind.
pub open spec fn status_error(code: i32) -> Option<Error> {
    if code == 0 {
        None
    } else if code == 0x1000 {
        Some(Error::NoModel)
    } else if code == 0x2000 {
        Some(Error::InvalidAlphabet)
    } else if code == 0x2001 {
        Some(Error::InvalidShape)
    } else if code == 0x2002 {
        Some(Error::InvalidScorer)
    } else if code == 0x2003 {
        Some(Error::ModelIncompatible)
    } else if code == 0x2004 {
        Some(Error::ScorerNotEnabled)
    } else if code == 0x2005 {
        Some(Error::ScorerUnreadable)
    } else if code == 0x2006 {
        Some(Error::ScorerInvalidHeader)
    } else if code == 0x2007 {
        Some(Error::ScorerNoTrie)
    } else if code == 0x2008 {
        Some(Error::ScorerInvalidTrie)
    } else if code == 0x2009 {
        Some(Error::ScorerVersionMismatch)
    } else if code == 0x3000 {
        Some(Error::InitMmapFailed)
    } else if code == 0x3001 {
        Some(Error::InitSessionFailed)
    } else if code == 0x3002 {
        Some(Error::InterpreterFailed)
    } else if code == 0x3003 {
        Some(Error::RunSessionFailed)
    } else if code == 0x3004 {
        Some(Error::CreateStreamFailed)
    } else if code == 0x3005 {
        Some(Error::ReadProtoBufFailed)
    } else if code == 0x3006 {
        Some(Error::CreateSessionFailed)
    } else if code == 0x3007 {
        Some(Error::CreateModelFailed)
    } else if code == 0x3008 {
        Some(Error::InsertHotWordFailed)
    } else if code == 0x3009 {
        Some(Error::ClearHotWordsFailed)
    } else if code == 0x3010 {
        Some(Error::EraseHotWordFailed)
    } else {
        Some(Error::Other(code))
    }
}

/// The outcome a native status code stands for.
pub open spec fn status_result(code: i32) -> Result<()> {
    match status_error(code) {
        None => Ok(()),
        Some(e) => Err(e),
    }
}

impl Error {
    /// Maps a native status code to an error; `None` means the call succeeded.
    pub fn from_c_int(err: i32) -> (r: Option<Error>)
        ensures
            r == status_error(err),
    {
        match err {
            0 => None,
            0x1000 => Some(Error::NoModel),
            0x2000 => Some(Error::InvalidAlphabet),
            0x2001 => Some(Error::InvalidShape),
            0x2002 => Some(Error::InvalidScorer),
            0x2003 => Some(Error::ModelIncompatible),
            0x2004 => Some(Error::ScorerNotEnabled),
            0x2005 => Some(Error::ScorerUnreadable),
            0x2006 => Some(Error::ScorerInvalidHeader),
            0x2007 => Some(Error::ScorerNoTrie),
            0x2008 => Some(Error::ScorerInvalidTrie),
            0x2009 => Some(Error::ScorerVersionMismatch),
            0x3000 => Some(Error::InitMmapFailed),
            0x3001 => Some(Error::InitSessionFailed),
            0x3002 => Some(Error::InterpreterFailed),
            0x3003 => Some(Error::RunSessionFailed),
            0x3004 => Some(Error::CreateStreamFailed),
            0x3005 => Some(Error::ReadProtoBufFailed),
            0x3006 => Some(Error::CreateSessionFailed),
            0x3007 => Some(Error::CreateModelFailed),
            0x3008 => Some(Error::InsertHotWordFailed),
            0x3009 => Some(Error::ClearHotWordsFailed),
            0x3010 => Some(Error::EraseHotWordFailed),
            _ => Some(Error::Other(err)),
        }
    }
}

/// What `FromUtf8Error`'s `Display` writes for an error; it depends on the
/// error alone (where the invalid sequence starts and how long it is).
pub uninterp spec fn utf8_error_description(e: std::string::FromUtf8Error) -> Seq<char>;

/// Relies on `<FromUtf8Error as Display>::fmt`, through `to_string`, for the
/// error's own description.
#[verifier::external_body]
fn utf8_error_text(e: &std::string::FromUtf8Error) -> (r: String)
    ensures
        r@ == utf8_error_description(*e),
{
    e.to_string()
}

/// The fixed part of an error's description; for [`Error::Utf8Error`] the
/// error's own description follows it.
pub open spec fn message_of(e: &Error) -> Seq<char> {
    match e {
        Error::NoModel => "Missing model information."@,
        Error::InvalidAlphabet => "Invalid alphabet embedded in model. (Data corruption?)"@,
        Error::InvalidShape => "Invalid model shape."@,
        Error::InvalidScorer => "Invalid scorer file."@,
        Error::ModelIncompatible => "Incompatible model."@,
        Error::ScorerNotEnabled => "External scorer is not enabled."@,
        Error::ScorerUnreadable => "Could not read scorer file."@,
        Error::ScorerInvalidHeader => "Could not recognize language model header in scorer."@,
        Error::ScorerNoTrie => "Reached end of scorer file before loading vocabulary trie."@,
        Error::ScorerInvalidTrie => "Invalid magic in trie header."@,
        Error::ScorerVersionMismatch => "Scorer file version does not match expected version."@,
        Error::InitMmapFailed => "Failed to initialize memory mapped model."@,
        Error::InitSessionFailed => "Failed to initialize the session."@,
        Error::InterpreterFailed => "Interpreter failed."@,
        Error::RunSessionFailed => "Failed to run the session."@,
        Error::CreateStreamFailed => "Error creating the stream."@,
        Error::ReadProtoBufFailed => "Error reading the proto buffer model file."@,
        Error::CreateSessionFailed => "Failed to create session."@,
        Error::CreateModelFailed => "Could not allocate model state."@,
        Error::InsertHotWordFailed => "Could not insert hot-word."@,
        Error::ClearHotWordsFailed => "Could not clear hot-words."@,
        Error::EraseHotWordFailed => "Could not erase hot-word."@,
        Error::Utf8Error(_) => "A string returned by `libstt` contained invalid UTF-8: "@,
        Error::WorkerUnavailable => "The worker thread that owned the stream is gone."@,
        _ => "An unknown error was returned."@,
    }
}

impl Error {
    /// A human-readable description of this error: the fixed text of its
    /// kind, followed, for a UTF-8 error, by that error's own description.
    pub fn message(&self) -> (r: String)
        ensures
            !(*self is Utf8Error) ==> r@ == message_of(self),
            *self matches Error::Utf8Error(u) ==> r@ == message_of(self) + utf8_error_description(u),
    {
        let mut text = self.fixed_message().to_owned();
        if let Error::Utf8Error(u) = self {
            text.append(utf8_error_text(u).as_str());
        }
        text
    }

    /// The fixed part of this error's description.
    fn fixed_message(&self) -> (r: &'static str)
        ensures
            r@ == message_of(self),
    {
        match self {
            Error::NoModel => "Missing model information.",
            Error::InvalidAlphabet => "Invalid alphabet embedded in model. (Data corruption?)",
            Error::InvalidShape => "Invalid model shape.",
            Error::InvalidScorer => "Invalid scorer file.",
            Error::ModelIncompatible => "Incompatible model.",
            Error::ScorerNotEnabled => "External scorer is not enabled.",
            Error::ScorerUnreadable => "Could not read scorer file.",
            Error::ScorerInvalidHeader => "Could not recognize language model header in scorer.",
            Error::ScorerNoTrie => "Reached end of scorer file before loading vocabulary trie.",
            Error::ScorerInvalidTrie => "Invalid magic in trie header.",
            Error::ScorerVersionMismatch => "Scorer file version does not match expected version.",
            Error::InitMmapFailed => "Failed to initialize memory mapped model.",
            Error::InitSessionFailed => "Failed to initialize the session.",
            Error::InterpreterFailed => "Interpreter failed.",
            Error::RunSessionFailed => "Failed to run the session.",
            Error::CreateStreamFailed => "Error creating the stream.",
            Error::ReadProtoBufFailed => "Error reading the proto buffer model file.",
            Error::CreateSessionFailed => "Failed to create session.",
            Error::CreateModelFailed => "Could not allocate model state.",
            Error::InsertHotWordFailed => "Could not insert hot-word.",
            Error::ClearHotWordsFailed => "Could not clear hot-words.",
            Error::EraseHotWordFailed => "Could not erase hot-word.",
            Error::Utf8Error(_) => "A string returned by `libstt` contained invalid UTF-8: ",
            Error::WorkerUnavailable => "The worker thread that owned the stream is gone.",
            _ => "An unknown error was returned.",
        }
    }
}

impl From<std::string::FromUtf8Error> for Error {
    fn from(e: std::string::FromUtf8Error) -> (r: Error)
        ensures
            r == Error::Utf8Error(e),
    {
        Error::Utf8Error(e)
    }
}

impl vstd::std_specs::convert::FromSpecImpl<std::string::FromUtf8Error> for Error {
    open spec fn obeys_from_spec() -> bool {
        true
    }

    open spec fn from_spec(e: std::string::FromUtf8Error) -> Error {
        Error::Utf8Error(e)
    }
}

/// Turns the status code of a native call that returns nothing else into a result.
pub fn check_status(code: i32) -> (r: Result<()>)
    ensures
        r == status_result(code),
        r is Ok <==> code == STATUS_OK,
{
    match Error::from_c_int(code) {
        Some(e) => Err(e),
        None => Ok(()),
    }
}

} // verus!
