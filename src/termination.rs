//! How a process ends when a checked value turns out to hold no payload.

use vstd::prelude::*;

verus! {

/// The two ways of ending the process on a violated assumption.
#[derive(Clone, Copy, Debug, PartialEq, Eq, Structural)]
pub enum Halt {
    /// An abrupt abort: no unwinding, no exit status of the process's choosing.
    Abort,
    /// A clean exit with status 1.
    Exit,
}

/// What is owed after a violated assumption: write `diagnostic` to the error
/// stream (a failed write is ignored), then end the process as `how` says.
#[derive(Clone, Copy, Debug)]
pub struct Termination {
    pub how: Halt,
    pub diagnostic: &'static str,
}

/// The exit status that ends the process: status 1 for an exit, none for an
/// abort, which ends it by a signal instead.
pub open spec fn exit_status_of(how: Halt) -> Option<i32> {
    match how {
        Halt::Abort => None,
        Halt::Exit => Some(1i32),
    }
}

impl Termination {
    /// The exit status to end the process with, or `None` where it is to abort.
    pub fn exit_status(&self) -> (r: Option<i32>)
        ensures
            r == exit_status_of(self.how),
    {
        match self.how {
            Halt::Abort => None,
            Halt::Exit => Some(1),
        }
    }
}

} // verus!
