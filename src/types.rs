use vstd::prelude::*;

verus! {

/// The declared SQL types that reach the resolvers of this library.
#[derive(Clone, Copy, Debug, PartialEq, Eq, Structural)]
pub enum DataType {
    Null,
    Boolean,
    Int8,
    Int16,
    Int32,
    Int64,
    UInt8,
    UInt16,
    UInt32,
    UInt64,
    Utf8,
    Binary,
    /// Any type that none of the functions accepts.
    Other,
}

/// Whether a type belongs to the integer family, signed or unsigned.
pub open spec fn is_integer_type(t: DataType) -> bool {
    match t {
        DataType::Int8 | DataType::Int16 | DataType::Int32 | DataType::Int64 | DataType::UInt8
        | DataType::UInt16 | DataType::UInt32 | DataType::UInt64 => true,
        _ => false,
    }
}

/// Whether a type is a signed integer of 8, 16, 32 or 64 bits.
pub open spec fn is_signed_integer_type(t: DataType) -> bool {
    match t {
        DataType::Int8 | DataType::Int16 | DataType::Int32 | DataType::Int64 => true,
        _ => false,
    }
}

impl DataType {
    pub fn is_integer(&self) -> (r: bool)
        ensures
            r == is_integer_type(*self),
    {
        match self {
            DataType::Int8 | DataType::Int16 | DataType::Int32 | DataType::Int64
            | DataType::UInt8 | DataType::UInt16 | DataType::UInt32 | DataType::UInt64 => true,
            _ => false,
        }
    }

    pub fn is_signed_integer(&self) -> (r: bool)
        ensures
            r == is_signed_integer_type(*self),
    {
        match self {
            DataType::Int8 | DataType::Int16 | DataType::Int32 | DataType::Int64 => true,
            _ => false,
        }
    }
}

/// Failures of resolution, type derivation and execution.
#[derive(Clone, Copy, Debug, PartialEq, Eq, Structural)]
pub enum FunctionError {
    /// The number of arguments is not the one the function takes.
    Arity { expected: usize, actual: usize },
    /// The argument at `position` has a type the function does not accept.
    Type { position: usize, data_type: DataType },
    /// The argument columns disagree in length.
    Exec { expected_len: usize, actual_len: usize },
}

} // verus!
