//! Small conversions shared by the node: delays in whole seconds and
//! results turned into `anyhow` errors.
use vstd::prelude::*;
use std::fmt::Debug;

verus! {

/// The number of milliseconds in one second.
pub const MILLIS_PER_SEC: u32 = 1000;

/// The largest number of seconds whose length in milliseconds fits a `u32`.
pub const MAX_DELAY_SECS: u32 = 4294967;

/// The length of `sec` seconds in milliseconds.
pub fn secs_to_millis(sec: u32) -> (ms: u32)
    requires
        sec <= MAX_DELAY_SECS,
    ensures
        ms == sec * 1000,
{
    sec * MILLIS_PER_SEC
}

/// A delay that can wait whole seconds, for delays that count milliseconds
/// with [`secs_to_millis`].
pub trait DelaySec {
    /// Waits at least `sec` seconds.
    fn delay_sec(&mut self, sec: u32)
        requires
            sec <= MAX_DELAY_SECS,
    ;
}

/// `anyhow`'s error type, carried through without looking inside.
#[verifier::external_type_specification]
#[verifier::external_body]
pub struct ExAnyhowError(anyhow::Error);

/// The `Debug` text of `value` (`format!("{:?}", value)`). That text is
/// whatever the value's `Debug` implementation writes, so nothing is claimed
/// of it.
#[verifier::external_body]
fn debug_text<E: Debug>(value: &E) -> String {
    format!("{:?}", value)
}

/// Calls `anyhow::Error::msg`, which builds a new error whose message is
/// `message`. The error is opaque here (it may also capture a backtrace), so
/// no clause speaks of it.
#[verifier::external_body]
fn error_with_message(message: String) -> anyhow::Error {
    anyhow::Error::msg(message)
}

/// Conversion of a result into one whose error is an `anyhow::Error`.
pub trait IntoAnyhow<R> {
    /// Keeps a success as it is and turns a failure into an `anyhow` error.
    fn into_anyhow(self) -> Result<R, anyhow::Error>;
}

impl<R, E: Debug> IntoAnyhow<R> for Result<R, E> {
    /// A success is kept unchanged; a failure becomes an `anyhow` error whose
    /// message is the `Debug` text of the original error.
    fn into_anyhow(self) -> (res: Result<R, anyhow::Error>)
        ensures
            res is Ok <==> self is Ok,
            self matches Ok(r) ==> res matches Ok(v) && v == r,
    {
        match self {
            Ok(r) => Ok(r),
            Err(e) => Err(error_with_message(debug_text(&e))),
        }
    }
}

} // verus!
