//! The payload of a log event the core emits toward its frontend; the
//! emitting itself is external I/O.
use vstd::prelude::*;

verus! {

/// A log event: a severity level and the message text.
#[derive(Debug)]
pub struct RustLogPayload {
    pub level: String,
    pub message: String,
}

/// Builds the payload for one log event.
pub fn log_payload(level: &str, message: &str) -> (r: RustLogPayload)
    ensures
        r.level@ == level@,
        r.message@ == message@,
{
    RustLogPayload { level: level.to_owned(), message: message.to_owned() }
}

} // verus!
