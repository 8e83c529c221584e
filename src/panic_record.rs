//! What is kept of a panic: the message taken from its payload, a one-line
//! description naming the thread and the source location, and a stack trace.

use vstd::prelude::*;
use backtrace::Backtrace;

verus! {

/// Stands in for a payload that is neither a string literal nor an owned string.
pub const FALLBACK_MESSAGE: &'static str = "Box<Any>";

/// Stands in for the name of a thread that has none.
pub const UNNAMED_THREAD: &'static str = "unnamed";

/// The shapes a panic payload can take.
#[derive(Debug)]
pub enum PanicPayload {
    /// A `&'static str` payload, as `panic!("literal")` gives.
    Literal(String),
    /// A `String` payload, as `panic!("{}", x)` gives.
    Owned(String),
    /// Any other payload.
    Other,
}

/// The place in the source where a panic was raised.
#[derive(Debug)]
pub struct SourceLocation {
    pub file: String,
    pub line: u32,
}

/// The message of a payload: its text when it holds one, else the fallback.
pub open spec fn payload_message(p: PanicPayload) -> Seq<char> {
    match p {
        PanicPayload::Literal(s) => s@,
        PanicPayload::Owned(s) => s@,
        PanicPayload::Other => FALLBACK_MESSAGE@,
    }
}

/// The text of a decimal digit.
pub open spec fn digit_text(d: nat) -> Seq<char> {
    if d == 0 {
        "0"@
    } else if d == 1 {
        "1"@
    } else if d == 2 {
        "2"@
    } else if d == 3 {
        "3"@
    } else if d == 4 {
        "4"@
    } else if d == 5 {
        "5"@
    } else if d == 6 {
        "6"@
    } else if d == 7 {
        "7"@
    } else if d == 8 {
        "8"@
    } else {
        "9"@
    }
}

/// The decimal notation of `n`, without leading zeros.
pub open spec fn decimal(n: nat) -> Seq<char>
    decreases n,
{
    if n < 10 {
        digit_text(n)
    } else {
        decimal(n / 10) + digit_text(n % 10)
    }
}

/// The name shown for a thread.
pub open spec fn thread_label(name: Option<String>) -> Seq<char> {
    match name {
        Some(n) => n@,
        None => UNNAMED_THREAD@,
    }
}

/// `file:line`.
pub open spec fn location_text(loc: SourceLocation) -> Seq<char> {
    loc.file@ + ":"@ + decimal(loc.line as nat)
}

/// `thread '<name>' panicked with '<message>'`, followed by ` at <file>:<line>`
/// when the location is known.
pub open spec fn panic_description(
    thread: Option<String>,
    message: Seq<char>,
    location: Option<SourceLocation>,
) -> Seq<char> {
    let head = "thread '"@ + thread_label(thread) + "' panicked with '"@ + message + "'"@;
    match location {
        Some(loc) => head + " at "@ + location_text(loc),
        None => head,
    }
}

/// Extracts a displayable message from a panic payload.
pub fn panic_message(payload: &PanicPayload) -> (r: String)
    ensures
        r@ == payload_message(*payload),
{
    match payload {
        PanicPayload::Literal(s) => s.clone(),
        PanicPayload::Owned(s) => s.clone(),
        PanicPayload::Other => String::from_str(FALLBACK_MESSAGE),
    }
}

/// Whatever the payload's shape, the message is never empty, provided the
/// text a string payload carries is not empty itself.
pub proof fn lemma_panic_message_non_empty(p: PanicPayload)
    requires
        p matches PanicPayload::Literal(s) ==> s@.len() > 0,
        p matches PanicPayload::Owned(s) ==> s@.len() > 0,
    ensures
        payload_message(p).len() > 0,
        p is Other ==> payload_message(p) == FALLBACK_MESSAGE@,
{
    reveal_strlit("Box<Any>");
}

fn digit_str(d: u32) -> (r: &'static str)
    requires
        d < 10,
    ensures
        r@ == digit_text(d as nat),
{
    if d == 0 {
        "0"
    } else if d == 1 {
        "1"
    } else if d == 2 {
        "2"
    } else if d == 3 {
        "3"
    } else if d == 4 {
        "4"
    } else if d == 5 {
        "5"
    } else if d == 6 {
        "6"
    } else if d == 7 {
        "7"
    } else if d == 8 {
        "8"
    } else {
        "9"
    }
}

/// Appends the decimal notation of `n` to `out`.
pub fn push_decimal(out: &mut String, n: u32)
    ensures
        final(out)@ == old(out)@ + decimal(n as nat),
    decreases n,
{
    if n >= 10 {
        push_decimal(out, n / 10);
    }
    out.append(digit_str(n % 10));
    assert(final(out)@ =~= old(out)@ + decimal(n as nat));
}

/// Composes the one-line description of a panic.
pub fn describe_panic(
    thread: &Option<String>,
    message: &str,
    location: &Option<SourceLocation>,
) -> (r: String)
    ensures
        r@ == panic_description(*thread, message@, *location),
{
    let mut out = String::from_str("thread '");
    match thread {
        Some(name) => out.append(name.as_str()),
        None => out.append(UNNAMED_THREAD),
    }
    out.append("' panicked with '");
    out.append(message);
    out.append("'");
    match location {
        Some(loc) => {
            out.append(" at ");
            out.append(loc.file.as_str());
            out.append(":");
            push_decimal(&mut out, loc.line);
        },
        None => {},
    }
    proof {
        let head = "thread '"@ + thread_label(*thread) + "' panicked with '"@ + message@ + "'"@;
        if location.is_some() {
            assert(out@ =~= head + " at "@ + location_text(location->0));
        } else {
            assert(out@ =~= head);
        }
    }
    out
}

/// Relies on backtrace::Backtrace::new, which captures the current stack;
/// nothing is promised of what it holds.
pub assume_specification[ backtrace::Backtrace::new ]() -> Backtrace;

/// Declares backtrace::Backtrace, a captured stack that is only carried along.
#[verifier::external_type_specification]
#[verifier::external_body]
pub struct ExBacktrace(Backtrace);

/// A panic as the panic hook captures it.
pub struct PanicRecord {
    /// The description composed by `describe_panic`.
    pub description: String,
    /// The stack at the point of the panic.
    pub backtrace: Backtrace,
}

impl PanicRecord {
    /// Captures the stack and composes the description of a panic raised on a
    /// thread with the given name, at the given location, with the given payload.
    pub fn capture(
        payload: &PanicPayload,
        thread: &Option<String>,
        location: &Option<SourceLocation>,
    ) -> (r: PanicRecord)
        ensures
            r.description@ == panic_description(*thread, payload_message(*payload), *location),
    {
        let backtrace = Backtrace::new();
        let message = panic_message(payload);
        let description = describe_panic(thread, message.as_str(), location);
        PanicRecord { description, backtrace }
    }
}

} // verus!
