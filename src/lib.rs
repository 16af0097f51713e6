//! Bitwise scalar functions for a columnar SQL engine: argument coercion,
//! output-type derivation and whole-column kernels with null propagation.

pub mod bits;
pub mod types;
pub mod column;
pub mod bit_count;
pub mod bit_get;
pub mod bit_not;
pub mod shift_right_unsigned;
pub mod registry;

pub use bit_count::BitCount;
pub use bit_get::BitGet;
pub use bit_not::BitNot;
pub use column::Column;
pub use registry::{BinaryOperator, BitwiseFunction, BuiltIn};
pub use shift_right_unsigned::ShiftRightUnsigned;
pub use types::{DataType, FunctionError};
