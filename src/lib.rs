//! Unwraps annotated with the reason the author knows they cannot fail.

pub mod checked;
pub mod message;
pub mod termination;

pub use checked::{safe_unwrap, SafeUnwrap};
pub use message::violation_message;
pub use termination::{Halt, Termination};
