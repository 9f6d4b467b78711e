//! Joining tuples at the type level.
//!
//! [`Join`] relates a left tuple type and a right tuple type to the tuple type that holds the
//! elements of both, and converts between the two operands and their concatenation.
//! [`Append`] is the same for a tuple and one more element. [`Joined`] and [`Appended`] start
//! from the joined tuple, so that a caller writes `tuple.split()` and `tuple.pop()`.
//!
//! Each operand may hold up to 13 elements, so a joined tuple holds up to 26. There is one
//! relation for each pair of operand arities, and none for a longer operand: joining one is
//! refused when the caller is compiled.

pub mod append;
pub mod identity;
pub mod join;
mod relations;

pub use append::{Append, Appended};
pub use join::{Join, Joined};
