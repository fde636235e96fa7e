use vstd::prelude::*;
use vstd::string::*;

use crate::dimension::DimensionVector;
use crate::text::{push_decimal, push_signed_decimal, decimal, signed_decimal};

verus! {

/// Failures of the dimension algebra and of the value operations built on it.
#[derive(Debug, Clone)]
pub enum QuantityError {
    IncompatibleDimensions { left_dim: DimensionVector, right_dim: DimensionVector, message: String },
    DimensionOverflow { dimension_index: usize, attempted_value: i16, message: String },
    NumericError { message: String },
    OrthogonalityError { left_ortho: i8, right_ortho: i8, message: String },
    DivisionByZero,
    ConversionError { from_unit: String, to_unit: String, message: String },
}

/// The message carried by an overflow of slot `index` to `value`.
pub open spec fn overflow_text(index: nat, value: int) -> Seq<char> {
    "Dimension overflow: exponent "@ + signed_decimal(value) + " for index "@ + decimal(index)
        + " exceeds limits"@
}

/// The human-readable rendering of an error.
pub open spec fn description(e: QuantityError) -> Seq<char> {
    match e {
        QuantityError::IncompatibleDimensions { message, .. } => "Incompatible dimensions: "@
            + message@,
        QuantityError::DimensionOverflow { message, .. } => "Dimension overflow: "@ + message@,
        QuantityError::NumericError { message } => "Numeric error: "@ + message@,
        QuantityError::OrthogonalityError { message, .. } => "Orthogonality error: "@ + message@,
        QuantityError::DivisionByZero => "Division by zero"@,
        QuantityError::ConversionError { message, .. } => "Conversion error: "@ + message@,
    }
}

/// Builds the message of an overflow of slot `index` to `value`.
pub fn overflow_message(index: usize, value: i16) -> (r: String)
    ensures
        r@ == overflow_text(index as nat, value as int),
{
    let mut s = String::from_str("Dimension overflow: exponent ");
    push_signed_decimal(&mut s, value as i64);
    s.append(" for index ");
    push_decimal(&mut s, index as u64);
    s.append(" exceeds limits");
    s
}

impl QuantityError {
    /// Renders the error as text, led by the name of its kind.
    pub fn describe(&self) -> (r: String)
        ensures
            r@ == description(*self),
    {
        match self {
            QuantityError::IncompatibleDimensions { message, .. } => {
                String::from_str("Incompatible dimensions: ").concat(message.as_str())
            },
            QuantityError::DimensionOverflow { message, .. } => {
                String::from_str("Dimension overflow: ").concat(message.as_str())
            },
            QuantityError::NumericError { message } => {
                String::from_str("Numeric error: ").concat(message.as_str())
            },
            QuantityError::OrthogonalityError { message, .. } => {
                String::from_str("Orthogonality error: ").concat(message.as_str())
            },
            QuantityError::DivisionByZero => String::from_str("Division by zero"),
            QuantityError::ConversionError { message, .. } => {
                String::from_str("Conversion error: ").concat(message.as_str())
            },
        }
    }
}

} // verus!
