//! A dynamically tagged value type: numbers, strings, booleans, arrays,
//! objects, null/undefined and datetimes, with a JSON reader and writer and a
//! YAML writer, all specified and verified down to the character level.
use vstd::prelude::*;

pub mod array;
pub mod datetime;
pub mod impls;
pub mod laws;
pub mod number;
pub mod object;
pub mod parser;
pub mod prelude;
pub mod stringb;
pub mod text;
pub mod to;
pub mod to_value;
pub mod traits;
pub mod value;
pub mod value_key;

verus! {

/// The recoverable failures of the library: a JSON text that does not parse
/// (with or without detail), and a string that is not a number.
#[derive(Clone, PartialEq, Debug)]
pub enum Error {
    NonParsebleMsg(String),
    NonParseble,
    NotNumber,
}

} // verus!
