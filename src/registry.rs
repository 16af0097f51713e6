use crate::bit_count::{bit_count_coerce_spec, bit_count_inner, bit_count_spec};
use crate::bit_get::{bit_get_coerce_spec, bit_get_inner, bit_get_spec};
use crate::bit_not::{bit_not_coerce_spec, bit_not_inner, bit_not_return_spec, bit_not_spec};
use crate::column::{column_result_view, columns_view, types_result_view, Column, ColumnModel};
use crate::shift_right_unsigned::{
    shift_right_unsigned_coerce_spec, shift_right_unsigned_inner, shift_right_unsigned_return_spec,
    shift_right_unsigned_spec,
};
use crate::types::{DataType, FunctionError};
use crate::{BitCount, BitGet, BitNot, ShiftRightUnsigned};
use vstd::prelude::*;

verus! {

/// The functions whose kernels this library provides.
#[derive(Clone, Copy, Debug, PartialEq, Eq, Structural)]
pub enum BitwiseFunction {
    BitCount,
    BitGet,
    BitNot,
    ShiftRightUnsigned,
}

/// Binary operators that the engine evaluates itself.
#[derive(Clone, Copy, Debug, PartialEq, Eq, Structural)]
pub enum BinaryOperator {
    BitwiseAnd,
    BitwiseXor,
    BitwiseOr,
    BitwiseShiftRight,
}

/// What a built-in name stands for.
#[derive(Clone, Copy, Debug, PartialEq, Eq, Structural)]
pub enum BuiltIn {
    BinaryOp(BinaryOperator),
    Function(BitwiseFunction),
}

pub open spec fn resolve_spec(f: BitwiseFunction, ts: Seq<DataType>) -> Result<
    Seq<DataType>,
    FunctionError,
> {
    match f {
        BitwiseFunction::BitCount => bit_count_coerce_spec(ts),
        BitwiseFunction::BitGet => bit_get_coerce_spec(ts),
        BitwiseFunction::BitNot => bit_not_coerce_spec(ts),
        BitwiseFunction::ShiftRightUnsigned => shift_right_unsigned_coerce_spec(ts),
    }
}

pub open spec fn derive_spec(f: BitwiseFunction, ts: Seq<DataType>) -> Result<
    DataType,
    FunctionError,
> {
    match f {
        BitwiseFunction::BitCount => Ok(DataType::Int32),
        BitwiseFunction::BitGet => Ok(DataType::Int8),
        BitwiseFunction::BitNot => bit_not_return_spec(ts),
        BitwiseFunction::ShiftRightUnsigned => shift_right_unsigned_return_spec(ts),
    }
}

pub open spec fn execute_spec(f: BitwiseFunction, args: Seq<ColumnModel>) -> Result<
    ColumnModel,
    FunctionError,
> {
    match f {
        BitwiseFunction::BitCount => bit_count_spec(args),
        BitwiseFunction::BitGet => bit_get_spec(args),
        BitwiseFunction::BitNot => bit_not_spec(args),
        BitwiseFunction::ShiftRightUnsigned => shift_right_unsigned_spec(args),
    }
}

impl BitwiseFunction {
    /// The SQL name of the function.
    pub fn name(&self) -> (r: &'static str)
        ensures
            r@ == (match *self {
                BitwiseFunction::BitCount => "bit_count"@,
                BitwiseFunction::BitGet => "bit_get"@,
                BitwiseFunction::BitNot => "~"@,
                BitwiseFunction::ShiftRightUnsigned => "shiftrightunsigned"@,
            }),
    {
        match self {
            BitwiseFunction::BitCount => BitCount::new().name(),
            BitwiseFunction::BitGet => BitGet::new().name(),
            BitwiseFunction::BitNot => BitNot::new().name(),
            BitwiseFunction::ShiftRightUnsigned => ShiftRightUnsigned::new().name(),
        }
    }

    /// Coerces declared argument types to the types the kernel works on.
    pub fn resolve(&self, arg_types: &[DataType]) -> (r: Result<Vec<DataType>, FunctionError>)
        ensures
            types_result_view(r) == resolve_spec(*self, arg_types@),
    {
        match self {
            BitwiseFunction::BitCount => BitCount::new().coerce_types(arg_types),
            BitwiseFunction::BitGet => BitGet::new().coerce_types(arg_types),
            BitwiseFunction::BitNot => BitNot::new().coerce_types(arg_types),
            BitwiseFunction::ShiftRightUnsigned => ShiftRightUnsigned::new().coerce_types(
                arg_types,
            ),
        }
    }

    /// The output type for coerced argument types.
    pub fn derive_output_type(&self, arg_types: &[DataType]) -> (r: Result<DataType, FunctionError>)
        ensures
            r == derive_spec(*self, arg_types@),
    {
        match self {
            BitwiseFunction::BitCount => BitCount::new().return_type(arg_types),
            BitwiseFunction::BitGet => BitGet::new().return_type(arg_types),
            BitwiseFunction::BitNot => BitNot::new().return_type(arg_types),
            BitwiseFunction::ShiftRightUnsigned => ShiftRightUnsigned::new().return_type(
                arg_types,
            ),
        }
    }

    /// Runs the function's kernel over whole argument columns.
    pub fn execute(&self, args: &[Column]) -> (r: Result<Column, FunctionError>)
        ensures
            column_result_view(r) == execute_spec(*self, columns_view(args@)),
    {
        match self {
            BitwiseFunction::BitCount => bit_count_inner(args),
            BitwiseFunction::BitGet => bit_get_inner(args),
            BitwiseFunction::BitNot => bit_not_inner(args),
            BitwiseFunction::ShiftRightUnsigned => shift_right_unsigned_inner(args),
        }
    }
}

/// The names this library registers, with what each stands for.
pub open spec fn built_in_table() -> Seq<(Seq<char>, BuiltIn)> {
    seq![
        ("&"@, BuiltIn::BinaryOp(BinaryOperator::BitwiseAnd)),
        ("^"@, BuiltIn::BinaryOp(BinaryOperator::BitwiseXor)),
        ("bit_count"@, BuiltIn::Function(BitwiseFunction::BitCount)),
        ("bit_get"@, BuiltIn::Function(BitwiseFunction::BitGet)),
        ("getbit"@, BuiltIn::Function(BitwiseFunction::BitGet)),
        ("shiftright"@, BuiltIn::BinaryOp(BinaryOperator::BitwiseShiftRight)),
        ("shiftrightunsigned"@, BuiltIn::Function(BitwiseFunction::ShiftRightUnsigned)),
        ("|"@, BuiltIn::BinaryOp(BinaryOperator::BitwiseOr)),
        ("~"@, BuiltIn::Function(BitwiseFunction::BitNot)),
    ]
}

/// The registration table shared with the engine: binary operators that it
/// evaluates itself, and the functions whose kernels this library provides.
pub fn list_built_in_bitwise_functions() -> (r: Vec<(&'static str, BuiltIn)>)
    ensures
        r@.len() == built_in_table().len(),
        forall|k: int|
            0 <= k < r@.len() ==> (#[trigger] r@[k]).0@ == built_in_table()[k].0 && r@[k].1
                == built_in_table()[k].1,
{
    proof {
        reveal_strlit("&");
        reveal_strlit("^");
        reveal_strlit("bit_count");
        reveal_strlit("bit_get");
        reveal_strlit("getbit");
        reveal_strlit("shiftright");
        reveal_strlit("shiftrightunsigned");
        reveal_strlit("|");
        reveal_strlit("~");
    }
    let r = vec![
        ("&", BuiltIn::BinaryOp(BinaryOperator::BitwiseAnd)),
        ("^", BuiltIn::BinaryOp(BinaryOperator::BitwiseXor)),
        ("bit_count", BuiltIn::Function(BitwiseFunction::BitCount)),
        ("bit_get", BuiltIn::Function(BitwiseFunction::BitGet)),
        ("getbit", BuiltIn::Function(BitwiseFunction::BitGet)),
        ("shiftright", BuiltIn::BinaryOp(BinaryOperator::BitwiseShiftRight)),
        ("shiftrightunsigned", BuiltIn::Function(BitwiseFunction::ShiftRightUnsigned)),
        ("|", BuiltIn::BinaryOp(BinaryOperator::BitwiseOr)),
        ("~", BuiltIn::Function(BitwiseFunction::BitNot)),
    ];
    r
}

/// Every list of types that the resolver hands out is one the output-type
/// deriver accepts: resolving and then deriving never fails at the second step.
pub proof fn resolved_types_have_output_type(f: BitwiseFunction, ts: Seq<DataType>)
    ensures
        resolve_spec(f, ts) is Ok ==> derive_spec(f, resolve_spec(f, ts)->Ok_0) is Ok,
{
}

/// A null argument at a row gives a null output at that row, for every
/// function and every argument, whenever the call succeeds.
pub proof fn null_in_null_out(f: BitwiseFunction, args: Seq<ColumnModel>, k: int, i: int)
    requires
        0 <= k < args.len(),
        0 <= i < args[k].len(),
        args[k].is_null(i),
        execute_spec(f, args) is Ok,
    ensures
        i < execute_spec(f, args)->Ok_0.len(),
        execute_spec(f, args)->Ok_0.is_null(i),
{
}

} // verus!
