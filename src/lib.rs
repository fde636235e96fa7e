//! Dimensional analysis over eight-slot exponent vectors: checked exponent
//! arithmetic, recognition of named quantities, and their unit symbols.

pub mod dimension;
pub mod error;
pub mod quantity;
pub mod symbols;
pub mod text;

pub use dimension::DimensionVector;
pub use error::QuantityError;
pub use quantity::{all_quantities, classify, Quantity};
pub use symbols::{get_anglo_symbol, get_si_symbol, get_symbol, UnitSystem};
