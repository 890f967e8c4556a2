//! Text helpers and the argument normalisation shared by all builders.
pub mod arity;
pub mod display;

pub use arity::{IntoFragment, IntoIteratorOfSameType, IntoNonZeroArray};
pub use display::joined;
