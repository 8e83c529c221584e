//! A panic-safe error bridge for a C-callable interface: per-thread diagnostic
//! slots, panic records, the landing pad that turns errors and unwinds into a
//! recorded diagnostic and a zero value, and the error-kind to code mapping.

pub mod error;
pub mod panic_record;
pub mod diagnostics;
