//! A verified engine for elementwise and reduction operations over
//! homogeneous numeric buffers.
//!
//! The engine is organised around a closed registry of element types
//! ([`types::TypeCode`]), a classifier and validator for the three
//! supported container kinds ([`validation`]), generic algorithms over
//! an element trait ([`element`], [`arith`]), and callback-bearing
//! operations ([`transform`]). Host-environment concerns (container
//! protocols, marshaling) stay outside the library: the functions here
//! take and return plain values.

pub mod arith;
pub mod element;
pub mod errors;
pub mod transform;
pub mod types;
pub mod validation;
