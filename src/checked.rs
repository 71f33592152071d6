//! Checked values: containers that either hold a payload or do not, and the
//! annotated unwrap over them.

use vstd::prelude::*;
use crate::message::violation_message;
use crate::termination::{Halt, Termination};

verus! {

/// A value whose author has checked that it holds a payload, together with
/// the operations that take the payload out under a stated justification.
pub trait SafeUnwrap<T>: Sized {
    /// Whether the value holds a payload.
    spec fn has_payload(&self) -> bool;

    /// The payload; meaningful only where `has_payload` holds.
    spec fn payload(&self) -> T;

    /// Returns the payload. `msg` states why the author knows it is there;
    /// were it absent, the current thread would panic with
    /// `violation_message(msg)`, which no verified caller can bring about.
    fn safe_unwrap(self, msg: &'static str) -> (r: T)
        requires
            self.has_payload(),
        ensures
            r == self.payload(),
    ;

    /// Returns the payload where there is one, and otherwise the termination
    /// that the caller owes: write `msg` to the error stream, then end the
    /// process as `how` says.
    fn unwrap_or_halt(self, how: Halt, msg: &'static str) -> (r: Result<T, Termination>)
        ensures
            self.has_payload() ==> r == Ok::<T, Termination>(self.payload()),
            !self.has_payload() ==> r == Err::<T, Termination>(
                (Termination { how, diagnostic: msg }),
            ),
    ;
}

/// Takes the payload out of `value`. Were it absent, the thread would panic
/// with the violation message for `reason`.
fn expect_payload<T>(value: Option<T>, reason: &str) -> (r: T)
    requires
        value is Some,
    ensures
        r == value->0,
{
    match value {
        Some(v) => v,
        None => {
            let m = violation_message(reason);
            let absent: Option<T> = None;
            absent.expect(m.as_str())
        },
    }
}

impl<T> SafeUnwrap<T> for Option<T> {
    open spec fn has_payload(&self) -> bool {
        self is Some
    }

    open spec fn payload(&self) -> T {
        self->0
    }

    fn safe_unwrap(self, msg: &'static str) -> (r: T) {
        expect_payload(self, msg)
    }

    fn unwrap_or_halt(self, how: Halt, msg: &'static str) -> (r: Result<T, Termination>) {
        match self {
            Some(v) => Ok(v),
            None => Err(Termination { how, diagnostic: msg }),
        }
    }
}

impl<T, E> SafeUnwrap<T> for Result<T, E> {
    open spec fn has_payload(&self) -> bool {
        self is Ok
    }

    open spec fn payload(&self) -> T {
        self->Ok_0
    }

    fn safe_unwrap(self, msg: &'static str) -> (r: T) {
        let value = match self {
            Ok(v) => Some(v),
            Err(_) => None,
        };
        expect_payload(value, msg)
    }

    fn unwrap_or_halt(self, how: Halt, msg: &'static str) -> (r: Result<T, Termination>) {
        match self {
            Ok(v) => Ok(v),
            Err(_) => Err(Termination { how, diagnostic: msg }),
        }
    }
}

/// The free-standing form of `SafeUnwrap::safe_unwrap`, justification first:
/// it returns the payload of `value` and behaves as the method does.
pub fn safe_unwrap<T, C: SafeUnwrap<T>>(reason: &'static str, value: C) -> (r: T)
    requires
        value.has_payload(),
    ensures
        r == value.payload(),
{
    value.safe_unwrap(reason)
}

} // verus!
