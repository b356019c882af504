//! The registry of supported element types.
//!
//! Ten numeric element types, each tied to one external single-character
//! tag from the alphabet `{b, B, h, H, i, I, l, L, f, d}`. The mapping
//! is a bijection: [`lemma_parse_format_roundtrip`] and
//! [`lemma_format_parse_roundtrip`] prove the two directions.

use crate::errors::OpError;
use vstd::prelude::*;

verus! {

/// The closed enumeration of supported numeric element types.
#[derive(Debug, Clone, Copy, PartialEq, Eq, Structural)]
pub enum TypeCode {
    /// Tag `b`: signed 8-bit integer.
    Int8,
    /// Tag `h`: signed 16-bit integer.
    Int16,
    /// Tag `i`: signed 32-bit integer.
    Int32,
    /// Tag `l`: signed 64-bit integer.
    Int64,
    /// Tag `B`: unsigned 8-bit integer.
    UInt8,
    /// Tag `H`: unsigned 16-bit integer.
    UInt16,
    /// Tag `I`: unsigned 32-bit integer.
    UInt32,
    /// Tag `L`: unsigned 64-bit integer.
    UInt64,
    /// Tag `f`: 32-bit floating point.
    Float32,
    /// Tag `d`: 64-bit floating point.
    Float64,
}

/// Which type code, if any, an external tag character denotes.
pub open spec fn parse_spec(tag: char) -> Option<TypeCode> {
    match tag {
        'b' => Some(TypeCode::Int8),
        'h' => Some(TypeCode::Int16),
        'i' => Some(TypeCode::Int32),
        'l' => Some(TypeCode::Int64),
        'B' => Some(TypeCode::UInt8),
        'H' => Some(TypeCode::UInt16),
        'I' => Some(TypeCode::UInt32),
        'L' => Some(TypeCode::UInt64),
        'f' => Some(TypeCode::Float32),
        'd' => Some(TypeCode::Float64),
        _ => None,
    }
}

/// The external tag character of a type code.
pub open spec fn format_spec(t: TypeCode) -> char {
    match t {
        TypeCode::Int8 => 'b',
        TypeCode::Int16 => 'h',
        TypeCode::Int32 => 'i',
        TypeCode::Int64 => 'l',
        TypeCode::UInt8 => 'B',
        TypeCode::UInt16 => 'H',
        TypeCode::UInt32 => 'I',
        TypeCode::UInt64 => 'L',
        TypeCode::Float32 => 'f',
        TypeCode::Float64 => 'd',
    }
}

impl TypeCode {
    /// Parse a type code from its external tag character. Fails with
    /// [`OpError::UnsupportedTypeCode`] exactly when the tag is outside
    /// the supported alphabet.
    pub fn from_char(tag: char) -> (r: Result<TypeCode, OpError>)
        ensures
            (match parse_spec(tag) {
                Some(t) => r == Ok::<TypeCode, OpError>(t),
                None => r == Err::<TypeCode, OpError>(OpError::UnsupportedTypeCode(tag)),
            }),
    {
        match tag {
            'b' => Ok(TypeCode::Int8),
            'h' => Ok(TypeCode::Int16),
            'i' => Ok(TypeCode::Int32),
            'l' => Ok(TypeCode::Int64),
            'B' => Ok(TypeCode::UInt8),
            'H' => Ok(TypeCode::UInt16),
            'I' => Ok(TypeCode::UInt32),
            'L' => Ok(TypeCode::UInt64),
            'f' => Ok(TypeCode::Float32),
            'd' => Ok(TypeCode::Float64),
            _ => Err(OpError::UnsupportedTypeCode(tag)),
        }
    }

    /// The external tag character of this type code; total, and the
    /// exact inverse of [`TypeCode::from_char`].
    pub fn as_char(&self) -> (r: char)
        ensures
            r == format_spec(*self),
    {
        match self {
            TypeCode::Int8 => 'b',
            TypeCode::Int16 => 'h',
            TypeCode::Int32 => 'i',
            TypeCode::Int64 => 'l',
            TypeCode::UInt8 => 'B',
            TypeCode::UInt16 => 'H',
            TypeCode::UInt32 => 'I',
            TypeCode::UInt64 => 'L',
            TypeCode::Float32 => 'f',
            TypeCode::Float64 => 'd',
        }
    }
}

/// Formatting a parsed tag gives the tag back: for every tag in the
/// supported alphabet, `format(parse(tag)) == tag`.
pub proof fn lemma_parse_format_roundtrip(tag: char)
    requires
        parse_spec(tag) is Some,
    ensures
        format_spec(parse_spec(tag)->Some_0) == tag,
{
}

/// Parsing a formatted type code gives the type code back: the tag
/// mapping is injective over the ten variants.
pub proof fn lemma_format_parse_roundtrip(t: TypeCode)
    ensures
        parse_spec(format_spec(t)) == Some(t),
{
}

} // verus!
