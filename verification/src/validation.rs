//! Input classification and validation.
//!
//! The host hands the engine the outcome of its inspections as plain
//! booleans (exact-kind tests and buffer-capability probes) and the
//! container's declared element tag as a string; the decisions made on
//! them — which container kind this is, whether it may be operated on,
//! and which element type it holds — are verified here.

use crate::errors::OpError;
use crate::types::{parse_spec, TypeCode};
use vstd::prelude::*;
use vstd::string::StrSliceExecFns;

verus! {

/// The closed enumeration of supported container kinds.
#[derive(Debug, Clone, Copy, PartialEq, Eq, Structural)]
pub enum InputType {
    /// A fixed-width numeric array (`array.array`).
    FixedArray,
    /// An n-dimensional array (`numpy.ndarray`).
    NDArray,
    /// A raw memory view (`memoryview`).
    MemoryView,
}

/// Which container kind the exact-kind test results denote, if any.
/// A value that matches none of the three kinds is rejected, however
/// list-like it may otherwise be.
pub open spec fn detect_spec(
    is_fixed_array: bool,
    is_ndarray: bool,
    is_memoryview: bool,
) -> Result<InputType, OpError> {
    if is_fixed_array {
        Ok(InputType::FixedArray)
    } else if is_ndarray {
        Ok(InputType::NDArray)
    } else if is_memoryview {
        Ok(InputType::MemoryView)
    } else {
        Err(OpError::UnrecognizedContainer)
    }
}

/// Classify a container from the host's exact-kind test results.
/// Fails with [`OpError::UnrecognizedContainer`] exactly when all three
/// tests came back negative.
pub fn detect_input_type(
    is_fixed_array: bool,
    is_ndarray: bool,
    is_memoryview: bool,
) -> (r: Result<InputType, OpError>)
    ensures
        r == detect_spec(is_fixed_array, is_ndarray, is_memoryview),
{
    if is_fixed_array {
        Ok(InputType::FixedArray)
    } else if is_ndarray {
        Ok(InputType::NDArray)
    } else if is_memoryview {
        Ok(InputType::MemoryView)
    } else {
        Err(OpError::UnrecognizedContainer)
    }
}

/// Whether a container with the probed buffer capabilities may serve
/// the requested operation.
pub open spec fn validate_spec(
    exposes_buffer: bool,
    exposes_writable: bool,
    requires_mutable: bool,
) -> Result<(), OpError> {
    if !exposes_buffer {
        Err(OpError::IncapableBuffer)
    } else if requires_mutable && !exposes_writable {
        Err(OpError::IncapableBuffer)
    } else {
        Ok(())
    }
}

/// Check that a classified container exposes the buffer capability the
/// operation needs. Fails with [`OpError::IncapableBuffer`] exactly
/// when the container exposes no buffer view at all, or a read-only one
/// where a mutable one is required.
pub fn validate_for_operation(
    input_type: InputType,
    exposes_buffer: bool,
    exposes_writable: bool,
    requires_mutable: bool,
) -> (r: Result<(), OpError>)
    ensures
        r == validate_spec(exposes_buffer, exposes_writable, requires_mutable),
{
    let _ = input_type;
    if !exposes_buffer {
        Err(OpError::IncapableBuffer)
    } else if requires_mutable && !exposes_writable {
        Err(OpError::IncapableBuffer)
    } else {
        Ok(())
    }
}

/// Which type code, if any, a container's declared element tag string
/// denotes.
pub open spec fn typecode_of_tag_spec(tag: Seq<char>) -> Result<TypeCode, OpError> {
    if tag.len() != 1 {
        Err(OpError::InvalidTypeCode)
    } else {
        match parse_spec(tag[0]) {
            Some(t) => Ok(t),
            None => Err(OpError::UnsupportedTypeCode(tag[0])),
        }
    }
}

/// Read a type code out of a container's declared element tag. Fails
/// with [`OpError::InvalidTypeCode`] when the tag is not a single
/// character, and with [`OpError::UnsupportedTypeCode`] when that
/// character is outside the supported alphabet.
pub fn get_typecode(tag: &str) -> (r: Result<TypeCode, OpError>)
    ensures
        r == typecode_of_tag_spec(tag@),
{
    if tag.unicode_len() != 1 {
        Err(OpError::InvalidTypeCode)
    } else {
        TypeCode::from_char(tag.get_char(0))
    }
}

/// The full validation prologue shared by every operation: classify the
/// container, check the required buffer capability, then read its type
/// code — in that order, so the earliest failing step names the error.
pub open spec fn prepare_spec(
    is_fixed_array: bool,
    is_ndarray: bool,
    is_memoryview: bool,
    exposes_buffer: bool,
    exposes_writable: bool,
    requires_mutable: bool,
    tag: Seq<char>,
) -> Result<(InputType, TypeCode), OpError> {
    match detect_spec(is_fixed_array, is_ndarray, is_memoryview) {
        Err(e) => Err(e),
        Ok(input_type) => match validate_spec(
            exposes_buffer,
            exposes_writable,
            requires_mutable,
        ) {
            Err(e) => Err(e),
            Ok(_) => match typecode_of_tag_spec(tag) {
                Err(e) => Err(e),
                Ok(t) => Ok((input_type, t)),
            },
        },
    }
}

/// Run the validation prologue of one operation call: classification,
/// capability check, and type-code extraction, in order.
pub fn prepare_operation(
    is_fixed_array: bool,
    is_ndarray: bool,
    is_memoryview: bool,
    exposes_buffer: bool,
    exposes_writable: bool,
    requires_mutable: bool,
    tag: &str,
) -> (r: Result<(InputType, TypeCode), OpError>)
    ensures
        r == prepare_spec(
            is_fixed_array,
            is_ndarray,
            is_memoryview,
            exposes_buffer,
            exposes_writable,
            requires_mutable,
            tag@,
        ),
{
    let input_type = match detect_input_type(is_fixed_array, is_ndarray, is_memoryview) {
        Ok(it) => it,
        Err(e) => {
            return Err(e);
        },
    };
    match validate_for_operation(
        input_type,
        exposes_buffer,
        exposes_writable,
        requires_mutable,
    ) {
        Ok(_) => {},
        Err(e) => {
            return Err(e);
        },
    }
    match get_typecode(tag) {
        Ok(t) => Ok((input_type, t)),
        Err(e) => Err(e),
    }
}

} // verus!
