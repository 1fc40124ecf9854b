//! The error model: errors of the binding itself and errors reported by the engine.
use vstd::prelude::*;
use vstd::utf8::*;

use crate::text::{join, str_from_utf8};

verus! {

/// The integer type of the engine's return codes.
pub type ErrorInt = i32;

/// The result of every fallible operation of the library.
pub type Result<T> = core::result::Result<T, RegexError>;

/// The errors of the binding itself.
#[allow(non_camel_case_types)]
#[derive(Debug, Clone, Copy, PartialEq, Eq, PartialOrd, Ord, Hash, Structural)]
pub enum BindingErrorCode {
    /// A byte buffer from the engine was not a NUL-terminated string.
    CSTRING,
    /// Bytes could not be decoded as UTF-8.
    ENCODING,
    /// An operation needed the compiled pattern of a vacant [`crate::Regex`].
    REGEX_VACANT,
}

/// The engine's return code for success.
pub const REG_OK: u32 = 0;

/// No match.
pub const REG_NOMATCH: u32 = 1;

/// Invalid pattern.
pub const REG_BADPAT: u32 = 2;

/// Unknown collating element.
pub const REG_ECOLLATE: u32 = 3;

/// Unknown character class name.
pub const REG_ECTYPE: u32 = 4;

/// Trailing backslash.
pub const REG_EESCAPE: u32 = 5;

/// Invalid back reference.
pub const REG_ESUBREG: u32 = 6;

/// Unbalanced brackets.
pub const REG_EBRACK: u32 = 7;

/// Unbalanced parentheses.
pub const REG_EPAREN: u32 = 8;

/// Unbalanced braces.
pub const REG_EBRACE: u32 = 9;

/// Invalid contents of a bound.
pub const REG_BADBR: u32 = 10;

/// Invalid range.
pub const REG_ERANGE: u32 = 11;

/// Out of memory.
pub const REG_ESPACE: u32 = 12;

/// Invalid use of a repetition operator.
pub const REG_BADRPT: u32 = 13;

/// Repetition bound too large.
pub const REG_BADMAX: u32 = 14;

/// What kind of error occurred.
#[derive(Debug, Clone, Copy, PartialEq, Eq, Structural)]
pub enum ErrorKind {
    /// An error of the binding itself.
    Binding(BindingErrorCode),
    /// An error reported by the engine, with its code (see `REG_OK` and the
    /// constants after it).
    Tre(u32),
}

/// An error: its kind and a message.
#[derive(Debug, PartialEq, Eq)]
pub struct RegexError {
    /// Kind of error.
    pub kind: ErrorKind,
    /// Human-readable message.
    pub error: String,
}

/// The bytes are a C string: a NUL comes last and nowhere before.
pub open spec fn is_c_string(b: Seq<u8>) -> bool {
    &&& b.len() > 0
    &&& b.last() == 0
    &&& forall|i: int| 0 <= i < b.len() - 1 ==> b[i] != 0
}

/// The message that an engine buffer holds: every byte but the final NUL.
pub open spec fn message_bytes(b: Seq<u8>) -> Seq<u8> {
    b.drop_last()
}

/// The kind of error that [`RegexError::from_message_buffer`] builds for code
/// `result` and buffer `b`.
pub open spec fn message_buffer_kind(result: ErrorInt, b: Seq<u8>) -> ErrorKind {
    if !is_c_string(b) {
        ErrorKind::Binding(BindingErrorCode::CSTRING)
    } else if !valid_utf8(message_bytes(b)) {
        ErrorKind::Binding(BindingErrorCode::ENCODING)
    } else {
        ErrorKind::Tre(result as u32)
    }
}

impl RegexError {
    /// An error of the given kind with the given message.
    pub fn new(kind: ErrorKind, error: &str) -> (r: Self)
        ensures
            r.kind == kind,
            r.error@ == error@,
    {
        RegexError { kind, error: error.to_owned() }
    }

    /// Whether this is the error for an operation on a vacant handle.
    pub open spec fn is_vacant_handle(&self) -> bool {
        self.kind == ErrorKind::Binding(BindingErrorCode::REGEX_VACANT)
    }

    /// The error for an operation on a vacant handle.
    pub fn vacant() -> (r: Self)
        ensures
            r.is_vacant_handle(),
            r.error@ == "Attempted to unwrap a vacant Regex object"@,
    {
        RegexError::new(
            ErrorKind::Binding(BindingErrorCode::REGEX_VACANT),
            "Attempted to unwrap a vacant Regex object",
        )
    }

    /// The error for the engine's return code `result`, from the message buffer
    /// that the engine filled for it.
    ///
    /// The buffer must be a C string; its text, without the NUL, must be UTF-8.
    /// Then the error is of kind `Tre` with the code and that text as message.
    /// Otherwise it is the binding error that names the failed step.
    pub fn from_message_buffer(result: ErrorInt, errbuf: &[u8]) -> (r: Self)
        ensures
            r.kind == message_buffer_kind(result, errbuf@),
            r.kind == ErrorKind::Tre(result as u32) ==> r.error@ == decode_utf8(
                message_bytes(errbuf@),
            ),
    {
        let n = errbuf.len();
        let mut i: usize = 0;
        while i < n && errbuf[i] != 0
            invariant
                i <= n,
                n == errbuf@.len(),
                forall|j: int| 0 <= j < i ==> errbuf@[j] != 0,
            decreases n - i,
        {
            i = i + 1;
        }
        if i == n {
            return RegexError::new(
                ErrorKind::Binding(BindingErrorCode::CSTRING),
                "Could not convert error buffer to C string: data provided is not nul terminated",
            );
        }
        if i + 1 != n {
            let pos = i.to_string();
            let message = join(
                "Could not convert error buffer to C string: data provided contains an interior nul byte at pos ",
                pos.as_str(),
            );
            return RegexError::new(ErrorKind::Binding(BindingErrorCode::CSTRING), message.as_str());
        }
        let text = &errbuf[0..i];
        assert(text@ == message_bytes(errbuf@));
        match str_from_utf8(text) {
            Err(detail) => {
                let message = join("Could not encode error string to UTF-8: ", detail.as_str());
                RegexError::new(ErrorKind::Binding(BindingErrorCode::ENCODING), message.as_str())
            },
            Ok(s) => {
                proof {
                    encode_utf8_decode_utf8(s@);
                }
                RegexError::new(ErrorKind::Tre(result as u32), s)
            },
        }
    }
}

} // verus!
