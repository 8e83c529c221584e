//! Error kinds raised by wrapped operations and the stable numeric codes that
//! callers of the C interface poll.

use vstd::prelude::*;

verus! {

/// The kind of a failure, each carrying a message.
#[derive(Debug)]
pub enum ErrorKind {
    /// An unwind caught at the boundary.
    Panic(String),
    /// A plain message raised by an operation.
    Msg(String),
    /// An internal inconsistency.
    Internal(String),
    /// Two sketches with different k-mer sizes were compared.
    MismatchKSizes(String),
    /// A DNA sketch was compared with a protein sketch.
    MismatchDNAProt(String),
    /// Two sketches with different maximum hashes were compared.
    MismatchMaxHash(String),
    /// Two sketches with different seeds were compared.
    MismatchSeed(String),
    /// An invalid DNA character was found in a k-mer.
    InvalidDNA(String),
    /// An invalid protein character was found.
    InvalidProt(String),
    /// An input/output failure.
    Io(String),
    /// Bytes that are not valid UTF-8.
    Utf8Error(String),
    /// A string that is not a valid integer.
    ParseInt(String),
    /// Any other failure; it maps to the unknown code.
    Other(String),
}

/// A failure returned by a wrapped operation.
#[derive(Debug)]
pub struct Error {
    pub kind: ErrorKind,
}

impl Error {
    pub fn new(kind: ErrorKind) -> (r: Error)
        ensures
            r.kind == kind,
    {
        Error { kind }
    }

    pub fn kind(&self) -> (r: &ErrorKind)
        ensures
            *r == self.kind,
    {
        &self.kind
    }
}

/// The closed set of codes reported across the C interface.
#[derive(Debug, Clone, Copy, PartialEq, Eq, Structural)]
pub enum ErrorCode {
    NoError,
    Panic,
    Internal,
    Msg,
    Unknown,
    MismatchKSizes,
    MismatchDNAProt,
    MismatchMaxHash,
    MismatchSeed,
    InvalidDNA,
    InvalidProt,
    Io,
    Utf8Error,
    ParseInt,
}

/// The integer that stands for a code; zero means that no error is pending.
pub open spec fn code_value(c: ErrorCode) -> u32 {
    match c {
        ErrorCode::NoError => 0,
        ErrorCode::Panic => 1,
        ErrorCode::Internal => 2,
        ErrorCode::Msg => 3,
        ErrorCode::Unknown => 4,
        ErrorCode::MismatchKSizes => 1_001,
        ErrorCode::MismatchDNAProt => 1_002,
        ErrorCode::MismatchMaxHash => 1_003,
        ErrorCode::MismatchSeed => 1_004,
        ErrorCode::InvalidDNA => 1_101,
        ErrorCode::InvalidProt => 1_102,
        ErrorCode::Io => 100_001,
        ErrorCode::Utf8Error => 100_002,
        ErrorCode::ParseInt => 100_003,
    }
}

/// The code of an error kind; the message plays no part.
pub open spec fn kind_code(k: ErrorKind) -> ErrorCode {
    match k {
        ErrorKind::Panic(_) => ErrorCode::Panic,
        ErrorKind::Msg(_) => ErrorCode::Msg,
        ErrorKind::Internal(_) => ErrorCode::Internal,
        ErrorKind::MismatchKSizes(_) => ErrorCode::MismatchKSizes,
        ErrorKind::MismatchDNAProt(_) => ErrorCode::MismatchDNAProt,
        ErrorKind::MismatchMaxHash(_) => ErrorCode::MismatchMaxHash,
        ErrorKind::MismatchSeed(_) => ErrorCode::MismatchSeed,
        ErrorKind::InvalidDNA(_) => ErrorCode::InvalidDNA,
        ErrorKind::InvalidProt(_) => ErrorCode::InvalidProt,
        ErrorKind::Io(_) => ErrorCode::Io,
        ErrorKind::Utf8Error(_) => ErrorCode::Utf8Error,
        ErrorKind::ParseInt(_) => ErrorCode::ParseInt,
        ErrorKind::Other(_) => ErrorCode::Unknown,
    }
}

impl ErrorCode {
    /// Translates an error kind into its code.
    pub fn from_kind(kind: &ErrorKind) -> (r: ErrorCode)
        ensures
            r == kind_code(*kind),
    {
        match kind {
            ErrorKind::Panic(_) => ErrorCode::Panic,
            ErrorKind::Msg(_) => ErrorCode::Msg,
            ErrorKind::Internal(_) => ErrorCode::Internal,
            ErrorKind::MismatchKSizes(_) => ErrorCode::MismatchKSizes,
            ErrorKind::MismatchDNAProt(_) => ErrorCode::MismatchDNAProt,
            ErrorKind::MismatchMaxHash(_) => ErrorCode::MismatchMaxHash,
            ErrorKind::MismatchSeed(_) => ErrorCode::MismatchSeed,
            ErrorKind::InvalidDNA(_) => ErrorCode::InvalidDNA,
            ErrorKind::InvalidProt(_) => ErrorCode::InvalidProt,
            ErrorKind::Io(_) => ErrorCode::Io,
            ErrorKind::Utf8Error(_) => ErrorCode::Utf8Error,
            ErrorKind::ParseInt(_) => ErrorCode::ParseInt,
            ErrorKind::Other(_) => ErrorCode::Unknown,
        }
    }

    /// The integer reported for this code.
    pub fn value(&self) -> (r: u32)
        ensures
            r == code_value(*self),
    {
        match self {
            ErrorCode::NoError => 0,
            ErrorCode::Panic => 1,
            ErrorCode::Internal => 2,
            ErrorCode::Msg => 3,
            ErrorCode::Unknown => 4,
            ErrorCode::MismatchKSizes => 1_001,
            ErrorCode::MismatchDNAProt => 1_002,
            ErrorCode::MismatchMaxHash => 1_003,
            ErrorCode::MismatchSeed => 1_004,
            ErrorCode::InvalidDNA => 1_101,
            ErrorCode::InvalidProt => 1_102,
            ErrorCode::Io => 100_001,
            ErrorCode::Utf8Error => 100_002,
            ErrorCode::ParseInt => 100_003,
        }
    }
}

/// Zero is reserved for "no error": it is the value of `NoError` and of no
/// other code, and two different codes never share a value.
pub proof fn lemma_code_value_injective(a: ErrorCode, b: ErrorCode)
    ensures
        code_value(a) == 0 <==> a == ErrorCode::NoError,
        code_value(a) == code_value(b) <==> a == b,
{
}

/// The mapping from kinds to codes is total and never yields the "no error"
/// code: every kind, whatever its message, has a non-zero code.
pub proof fn lemma_kind_code_nonzero(k: ErrorKind)
    ensures
        kind_code(k) != ErrorCode::NoError,
        code_value(kind_code(k)) != 0,
{
}

/// The same kind with its message replaced by `m`.
pub open spec fn with_message(k: ErrorKind, m: String) -> ErrorKind {
    match k {
        ErrorKind::Panic(_) => ErrorKind::Panic(m),
        ErrorKind::Msg(_) => ErrorKind::Msg(m),
        ErrorKind::Internal(_) => ErrorKind::Internal(m),
        ErrorKind::MismatchKSizes(_) => ErrorKind::MismatchKSizes(m),
        ErrorKind::MismatchDNAProt(_) => ErrorKind::MismatchDNAProt(m),
        ErrorKind::MismatchMaxHash(_) => ErrorKind::MismatchMaxHash(m),
        ErrorKind::MismatchSeed(_) => ErrorKind::MismatchSeed(m),
        ErrorKind::InvalidDNA(_) => ErrorKind::InvalidDNA(m),
        ErrorKind::InvalidProt(_) => ErrorKind::InvalidProt(m),
        ErrorKind::Io(_) => ErrorKind::Io(m),
        ErrorKind::Utf8Error(_) => ErrorKind::Utf8Error(m),
        ErrorKind::ParseInt(_) => ErrorKind::ParseInt(m),
        ErrorKind::Other(_) => ErrorKind::Other(m),
    }
}

/// The mapping is deterministic: equal kinds always yield equal codes, and
/// the message a kind carries never changes its code.
pub proof fn lemma_kind_code_deterministic(a: ErrorKind, b: ErrorKind, m: String)
    requires
        a == b,
    ensures
        kind_code(a) == kind_code(b),
        kind_code(with_message(a, m)) == kind_code(a),
{
}

} // verus!
