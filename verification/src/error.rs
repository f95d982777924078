//! Structured errors decoded from native engine statuses.

use vstd::prelude::*;

verus! {

/// The stage at which a native failure arose.
#[derive(Clone, Copy, Debug, PartialEq, Eq, Structural)]
pub enum ErrorKind {
    /// The engine rejected the pattern at compile time.
    Compile,
    /// The engine could not produce a match region.  The binding in use
    /// allocates regions infallibly, so nothing returns this today; it
    /// stands for the failure a fallible region allocator would raise.
    Allocation,
    /// A search returned a failure status other than the mismatch status.
    SearchFailure,
    /// The engine's error text was unusable; a placeholder stands in for it.
    Decode,
}

/// A native failure decoded into a status code, a stage, and a bounded,
/// human-readable message produced by the engine's own error formatter.
#[derive(Debug)]
pub struct RegexError {
    pub kind: ErrorKind,
    pub code: i64,
    pub message: String,
}

/// The text that stands in when the engine hands back no usable message.
pub open spec fn fallback_message() -> Seq<char> {
    "engine error text unavailable"@
}

/// The message a decoded error carries for engine text `m`.
pub open spec fn decoded_message(m: Seq<char>) -> Seq<char> {
    if m.len() == 0 {
        fallback_message()
    } else {
        m
    }
}

/// Decode a native status into a structured [`RegexError`].  The engine's own
/// formatter produced `message`; empty text is treated as a decoding
/// failure and replaced by a fixed placeholder, so a decoded error is
/// never silent.
pub fn decode(kind: ErrorKind, code: i64, message: String) -> (e: RegexError)
    ensures
        e.code == code,
        e.message@ == decoded_message(message@),
        e.message@.len() > 0,
        e.kind == (if message@.len() == 0 {
            ErrorKind::Decode
        } else {
            kind
        }),
{
    proof {
        reveal_strlit("engine error text unavailable");
    }
    if message.as_str().is_empty() {
        RegexError { kind: ErrorKind::Decode, code, message: String::from_str("engine error text unavailable") }
    } else {
        RegexError { kind, code, message }
    }
}

} // verus!
