//! The diagnostic slot a calling thread owns, and the landing pad that turns
//! the outcome of a guarded call into a recorded diagnostic and a return value.

use vstd::prelude::*;
use backtrace::Backtrace;
use crate::error::{Error, ErrorKind, ErrorCode, kind_code, code_value};
use crate::panic_record::{PanicPayload, PanicRecord, payload_message, panic_message};

verus! {

/// The last error, the last panic description and the last stack trace seen
/// by one thread. A success never clears it; only `sourmash_err_clear` does.
pub struct DiagnosticSlot {
    pub last_error: Option<Error>,
    pub last_panic: Option<String>,
    pub last_backtrace: Option<Backtrace>,
}

impl DiagnosticSlot {
    /// No diagnostic is held.
    pub open spec fn is_empty(self) -> bool {
        &&& self.last_error is None
        &&& self.last_panic is None
        &&& self.last_backtrace is None
    }

    /// The code that a poll of this slot reports.
    pub open spec fn last_code(self) -> ErrorCode {
        match self.last_error {
            Some(e) => kind_code(e.kind),
            None => ErrorCode::NoError,
        }
    }

    /// `after` is `before` with its last error replaced by `err`.
    pub open spec fn records_error(before: DiagnosticSlot, after: DiagnosticSlot, err: Error) -> bool {
        &&& after.last_error == Some(err)
        &&& after.last_panic == before.last_panic
        &&& after.last_backtrace == before.last_backtrace
    }

    /// A slot that holds no diagnostic.
    pub fn new() -> (r: DiagnosticSlot)
        ensures
            r.is_empty(),
    {
        DiagnosticSlot { last_error: None, last_panic: None, last_backtrace: None }
    }

    /// Records a failure, replacing the previous last error.
    pub fn notify_err(&mut self, err: Error)
        ensures
            DiagnosticSlot::records_error(*old(self), *final(self), err),
    {
        self.last_error = Some(err);
    }

    /// Records a panic captured by the panic hook: its description and its
    /// stack trace replace the previous ones; the last error is kept.
    pub fn record_panic(&mut self, record: PanicRecord)
        ensures
            final(self).last_error == old(self).last_error,
            final(self).last_panic == Some(record.description),
            final(self).last_backtrace == Some(record.backtrace),
    {
        self.last_panic = Some(record.description);
        self.last_backtrace = Some(record.backtrace);
    }
}

/// Clears every diagnostic held by the slot.
pub fn sourmash_err_clear(slot: &mut DiagnosticSlot)
    ensures
        final(slot).is_empty(),
{
    slot.last_error = None;
    slot.last_panic = None;
    slot.last_backtrace = None;
}

/// The code of the last error held by the slot, or `NoError` when it holds none.
pub fn sourmash_err_get_last_code(slot: &DiagnosticSlot) -> (r: ErrorCode)
    ensures
        r == slot.last_code(),
{
    match &slot.last_error {
        Some(err) => ErrorCode::from_kind(err.kind()),
        None => ErrorCode::NoError,
    }
}

/// The value a guarded call returns when it fails: zero for integers, `false`,
/// `None` for optional values (a null pointer across the C interface).
pub trait Zeroed: Sized {
    spec fn zeroed_spec() -> Self;

    fn zeroed() -> (r: Self)
        ensures
            r == Self::zeroed_spec(),
    ;
}

impl Zeroed for u8 {
    open spec fn zeroed_spec() -> u8 {
        0
    }

    fn zeroed() -> (r: u8) {
        0
    }
}

impl Zeroed for u16 {
    open spec fn zeroed_spec() -> u16 {
        0
    }

    fn zeroed() -> (r: u16) {
        0
    }
}

impl Zeroed for u32 {
    open spec fn zeroed_spec() -> u32 {
        0
    }

    fn zeroed() -> (r: u32) {
        0
    }
}

impl Zeroed for u64 {
    open spec fn zeroed_spec() -> u64 {
        0
    }

    fn zeroed() -> (r: u64) {
        0
    }
}

impl Zeroed for usize {
    open spec fn zeroed_spec() -> usize {
        0
    }

    fn zeroed() -> (r: usize) {
        0
    }
}

impl Zeroed for i8 {
    open spec fn zeroed_spec() -> i8 {
        0
    }

    fn zeroed() -> (r: i8) {
        0
    }
}

impl Zeroed for i16 {
    open spec fn zeroed_spec() -> i16 {
        0
    }

    fn zeroed() -> (r: i16) {
        0
    }
}

impl Zeroed for i32 {
    open spec fn zeroed_spec() -> i32 {
        0
    }

    fn zeroed() -> (r: i32) {
        0
    }
}

impl Zeroed for i64 {
    open spec fn zeroed_spec() -> i64 {
        0
    }

    fn zeroed() -> (r: i64) {
        0
    }
}

impl Zeroed for isize {
    open spec fn zeroed_spec() -> isize {
        0
    }

    fn zeroed() -> (r: isize) {
        0
    }
}

impl Zeroed for bool {
    open spec fn zeroed_spec() -> bool {
        false
    }

    fn zeroed() -> (r: bool) {
        false
    }
}

impl Zeroed for () {
    open spec fn zeroed_spec() -> () {
        ()
    }

    fn zeroed() -> (r: ()) {
    }
}

impl<T> Zeroed for Option<T> {
    open spec fn zeroed_spec() -> Option<T> {
        None
    }

    fn zeroed() -> (r: Option<T>) {
        None
    }
}

/// How a guarded call ended: it returned a result, or it unwound with a payload.
pub enum CallOutcome<T> {
    Returned(Result<T, Error>),
    Unwound(PanicPayload),
}

/// `r` and `after` are what the landing pad leaves when a call with `outcome`
/// ends on a thread whose slot was `before`.
pub open spec fn lands<T: Zeroed>(
    before: DiagnosticSlot,
    after: DiagnosticSlot,
    outcome: CallOutcome<T>,
    r: T,
) -> bool {
    match outcome {
        CallOutcome::Returned(Ok(v)) => r == v && after == before,
        CallOutcome::Returned(Err(e)) => r == T::zeroed_spec() && DiagnosticSlot::records_error(
            before,
            after,
            e,
        ),
        CallOutcome::Unwound(p) => {
            &&& r == T::zeroed_spec()
            &&& after.last_error matches Some(e) && e.kind matches ErrorKind::Panic(m) && m@
                == payload_message(p)
            &&& after.last_panic == before.last_panic
            &&& after.last_backtrace == before.last_backtrace
        },
    }
}

/// Settles the outcome of a guarded call: a value is returned unchanged and
/// leaves the slot alone; a returned error or an unwind is recorded in the
/// slot and the zero value is returned. Nothing propagates past this point.
pub fn landingpad<T: Zeroed>(slot: &mut DiagnosticSlot, outcome: CallOutcome<T>) -> (r: T)
    ensures
        lands(*old(slot), *final(slot), outcome, r),
{
    match outcome {
        CallOutcome::Returned(Ok(v)) => v,
        CallOutcome::Returned(Err(err)) => {
            slot.notify_err(err);
            T::zeroed()
        },
        CallOutcome::Unwound(payload) => {
            let msg = panic_message(&payload);
            slot.notify_err(Error::new(ErrorKind::Panic(msg)));
            T::zeroed()
        },
    }
}

/// A call that returns a value leaves the reported code as it was, and the
/// value comes back unchanged.
pub proof fn lemma_success_keeps_code<T: Zeroed>(before: DiagnosticSlot, after: DiagnosticSlot, v: T, r: T)
    requires
        lands(before, after, CallOutcome::Returned(Ok(v)), r),
    ensures
        after.last_code() == before.last_code(),
        r == v,
{
}

/// A call that returns an error reports that error's code afterwards and
/// returns the zero value.
pub proof fn lemma_error_sets_code<T: Zeroed>(before: DiagnosticSlot, after: DiagnosticSlot, e: Error, r: T)
    requires
        lands(before, after, CallOutcome::Returned(Err(e)), r),
    ensures
        after.last_code() == kind_code(e.kind),
        code_value(after.last_code()) != 0,
        r == T::zeroed_spec(),
{
}

/// A call that unwinds reports the panic code afterwards and returns the
/// zero value.
pub proof fn lemma_unwind_sets_panic_code<T: Zeroed>(
    before: DiagnosticSlot,
    after: DiagnosticSlot,
    p: PanicPayload,
    r: T,
)
    requires
        lands(before, after, CallOutcome::Unwound(p), r),
    ensures
        after.last_code() == ErrorCode::Panic,
        code_value(after.last_code()) == 1,
        r == T::zeroed_spec(),
{
}

/// Once cleared, a slot reports "no error", whatever it held before.
pub proof fn lemma_cleared_reports_no_error(slot: DiagnosticSlot)
    requires
        slot.is_empty(),
    ensures
        slot.last_code() == ErrorCode::NoError,
        code_value(slot.last_code()) == 0,
{
}

} // verus!
