//! The dynamically typed value that flows through filters and node outputs.

use vstd::prelude::*;

verus! {

/// A dynamically typed template value: one of five variants.
///
/// A value is immutable once constructed; filters never mutate their input,
/// they produce new values. Numbers are IEEE-754 single-precision and are
/// carried as their 32-bit patterns (see the `single` module).
#[derive(Debug, PartialEq)]
pub enum Value {
    /// A text value.
    Str(String),
    /// A number: the bit pattern of an IEEE-754 binary32 value.
    Num(u32),
    /// A boolean.
    Bool(bool),
    /// An ordered sequence of values.
    Array(Vec<Value>),
    /// A string-keyed mapping, kept as its entries; entry order carries no meaning.
    Object(Vec<(String, Value)>),
}

} // verus!
