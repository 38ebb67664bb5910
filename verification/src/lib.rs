//! Numeric conversions with machine-checked contracts: casts between
//! fixed-width integer types, from integers to characters, and from IEEE-754
//! binary floating-point values to integers, checked or unchecked.
//!
//! Every conversion is a pure function of its arguments. Integers and
//! floating-point values are held as bit patterns; each type has a
//! mathematical model, its view, over which the contracts are stated.

pub mod character;
pub mod constants;
pub mod float;
pub mod float_cast;
pub mod int_type;
pub mod integer;
pub mod operations;
