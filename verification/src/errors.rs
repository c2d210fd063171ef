//! The error taxonomy of the buffer.

use vstd::prelude::*;

verus! {

/// A structured failure of a buffer operation.
///
/// Every fallible operation detects the violation before mutating any state
/// and returns one of these values without partial effect. Each variant
/// carries the requested value and the current limiting bound, so a caller
/// can decide whether to wait for more data or to treat the failure as a
/// protocol violation.
#[derive(Clone, Copy, Debug, PartialEq, Eq, Structural)]
pub enum BufError {
    /// A read, skip or cursor move would leave the cursor ordering
    /// `read_position <= write_position`: reading or skipping past the write
    /// cursor, or setting one cursor past the other.
    OutOfRange { requested: u32, limit: u32 },
    /// A write, a write-cursor mutation or a storage mutation was attempted
    /// on a read-only buffer.
    ReadOnlyViolation,
    /// A cursor operation whose target exceeds the current capacity
    /// (distinct from `OutOfRange`, where the issue is cursor ordering).
    CapacityViolation { requested: u32, capacity: u32 },
}

impl BufError {
    /// A short human-readable rendering of the failure.
    pub fn describe(&self) -> String {
        match self {
            BufError::OutOfRange { requested, limit } => {
                format_out_of_range(*requested, *limit)
            },
            BufError::ReadOnlyViolation => read_only_text(),
            BufError::CapacityViolation { requested, capacity } => {
                format_capacity(*requested, *capacity)
            },
        }
    }
}

/// Relies on the `format!` macro of std to render the two bounds as text.
#[verifier::external_body]
fn format_out_of_range(requested: u32, limit: u32) -> String {
    format!("out of range: requested {} but the current limit is {}", requested, limit)
}

/// Relies on `String::from` of std to build the fixed message.
#[verifier::external_body]
fn read_only_text() -> String {
    String::from("the buffer is read-only")
}

/// Relies on the `format!` macro of std to render the two bounds as text.
#[verifier::external_body]
fn format_capacity(requested: u32, capacity: u32) -> String {
    format!("capacity violation: requested {} but the capacity is {}", requested, capacity)
}

} // verus!
