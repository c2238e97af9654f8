use vstd::prelude::*;
use vstd::string::*;

verus! {

/// The part of the program that a debug log line comes from.
#[derive(Clone, Copy, Debug, PartialEq, Eq, Structural)]
pub enum Log {
    General,
    Audio,
}

/// The tag that marks a log line of `kind`.
pub open spec fn log_tag(kind: Log) -> Seq<char> {
    match kind {
        Log::General => "general"@,
        Log::Audio => "audio"@,
    }
}

impl Log {
    /// The tag that marks a log line of this kind.
    pub fn to_string(&self) -> (r: String)
        ensures
            r@ == log_tag(*self),
    {
        match self {
            Log::General => String::from_str("general"),
            Log::Audio => String::from_str("audio"),
        }
    }
}

} // verus!
