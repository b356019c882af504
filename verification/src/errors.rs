//! The error taxonomy of the engine.
//!
//! Every failure is surfaced to the immediate caller as one of these
//! variants; none is swallowed or downgraded. The human-readable
//! message of each variant is part of the contract: callers may match
//! on it, so [`OpError::message`] is pinned down exactly.

use vstd::prelude::*;
use vstd::string::StringExecFns;

verus! {

/// A classified failure of an engine operation.
#[derive(Debug, Clone, Copy, PartialEq, Eq)]
pub enum OpError {
    /// The container's declared element tag is outside the supported
    /// ten-character alphabet.
    UnsupportedTypeCode(char),
    /// The container's declared element tag is not a single character.
    InvalidTypeCode,
    /// The value is not one of the three accepted container kinds.
    UnrecognizedContainer,
    /// The container cannot produce a read-only or (when required)
    /// mutable buffer view.
    IncapableBuffer,
    /// A view could not be acquired even though capability checks passed.
    BufferUnavailable,
    /// A callback result cannot convert back to the element type.
    CallableReturnMismatch,
    /// A produced value cannot convert to the target element type.
    ElementConversion,
    /// `reduce` was called on an empty container with no seed value.
    EmptyReduceNoInitial,
    /// A caller-supplied callable failed; the host keeps the original
    /// error and propagates it unchanged.
    CallableFailed,
}

/// The exact message text of each error variant.
pub open spec fn message_spec(e: OpError) -> Seq<char> {
    match e {
        OpError::UnsupportedTypeCode(tag) => "Unsupported typecode: '"@ + seq![tag]
            + "'. Supported: b, B, h, H, i, I, l, L, f, d"@,
        OpError::InvalidTypeCode => "Invalid typecode"@,
        OpError::UnrecognizedContainer => (
            "Expected array.array, numpy.ndarray, or memoryview, got different type"@
        ),
        OpError::IncapableBuffer => "Object cannot expose the required buffer view"@,
        OpError::BufferUnavailable => "Failed to get buffer slice"@,
        OpError::CallableReturnMismatch => (
            "Callable result cannot be converted to the element type"@
        ),
        OpError::ElementConversion => "Value cannot be converted to the element type"@,
        OpError::EmptyReduceNoInitial => "reduce() of empty array with no initial value"@,
        OpError::CallableFailed => "Callable raised an exception"@,
    }
}

/// Relies on `char`'s `Display` through `str::to_string`: formatting a
/// single character yields exactly that character.
#[verifier::external_body]
fn char_to_string(c: char) -> (r: String)
    ensures
        r@ == seq![c],
{
    c.to_string()
}

impl OpError {
    /// Render the stable, human-readable message of this error.
    pub fn message(&self) -> (r: String)
        ensures
            r@ == message_spec(*self),
    {
        match self {
            OpError::UnsupportedTypeCode(tag) => {
                let mut s = String::from_str("Unsupported typecode: '");
                let t = char_to_string(*tag);
                s.append(t.as_str());
                s.append("'. Supported: b, B, h, H, i, I, l, L, f, d");
                s
            },
            OpError::InvalidTypeCode => String::from_str("Invalid typecode"),
            OpError::UnrecognizedContainer => String::from_str(
                "Expected array.array, numpy.ndarray, or memoryview, got different type",
            ),
            OpError::IncapableBuffer => String::from_str(
                "Object cannot expose the required buffer view",
            ),
            OpError::BufferUnavailable => String::from_str("Failed to get buffer slice"),
            OpError::CallableReturnMismatch => String::from_str(
                "Callable result cannot be converted to the element type",
            ),
            OpError::ElementConversion => String::from_str(
                "Value cannot be converted to the element type",
            ),
            OpError::EmptyReduceNoInitial => String::from_str(
                "reduce() of empty array with no initial value",
            ),
            OpError::CallableFailed => String::from_str("Callable raised an exception"),
        }
    }
}

} // verus!
