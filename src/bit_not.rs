use crate::column::{column_result_view, columns_view, lift1, types_result_view, Column, ColumnModel};
use crate::types::{is_integer_type, DataType, FunctionError};
use vstd::prelude::*;

verus! {

/// Bitwise complement of an 8-bit two's-complement value.
pub open spec fn not_i8(v: i8) -> i8 {
    !v
}

/// Bitwise complement of a 16-bit two's-complement value.
pub open spec fn not_i16(v: i16) -> i16 {
    !v
}

/// Bitwise complement of a 32-bit two's-complement value.
pub open spec fn not_i32(v: i32) -> i32 {
    !v
}

/// Bitwise complement of a 64-bit two's-complement value.
pub open spec fn not_i64(v: i64) -> i64 {
    !v
}

/// Result of `~` on argument columns: the two's-complement of every value,
/// in the same width; byte strings are refused.
pub open spec fn bit_not_spec(args: Seq<ColumnModel>) -> Result<ColumnModel, FunctionError> {
    if args.len() != 1 {
        Err(FunctionError::Arity { expected: 1, actual: args.len() as usize })
    } else {
        match args[0] {
            ColumnModel::Int8(s) => Ok(ColumnModel::Int8(lift1(s, |v: i8| not_i8(v)))),
            ColumnModel::Int16(s) => Ok(ColumnModel::Int16(lift1(s, |v: i16| not_i16(v)))),
            ColumnModel::Int32(s) => Ok(ColumnModel::Int32(lift1(s, |v: i32| not_i32(v)))),
            ColumnModel::Int64(s) => Ok(ColumnModel::Int64(lift1(s, |v: i64| not_i64(v)))),
            ColumnModel::Binary(_) => Err(
                FunctionError::Type { position: 0, data_type: DataType::Binary },
            ),
        }
    }
}

fn not_column_i8(s: &Vec<Option<i8>>) -> (r: Vec<Option<i8>>)
    ensures
        r@ == lift1(s@, |v: i8| not_i8(v)),
{
    let mut out: Vec<Option<i8>> = Vec::with_capacity(s.len());
    let mut i: usize = 0;
    while i < s.len()
        invariant
            i <= s@.len(),
            out@.len() == i,
            forall|j: int| 0 <= j < i ==> out@[j] == lift1(s@, |v: i8| not_i8(v))[j],
        decreases s@.len() - i,
    {
        let item: Option<i8> = s[i];
        if let Some(v) = item {
            let flipped: i8 = -1i8 - v;
            assert(-1i8 - v == !v) by (bit_vector);
            assert(flipped == not_i8(v));
            out.push(Some(flipped));
        } else {
            out.push(None);
        }
        i += 1;
    }
    assert(out@ =~= lift1(s@, |v: i8| not_i8(v)));
    out
}

fn not_column_i16(s: &Vec<Option<i16>>) -> (r: Vec<Option<i16>>)
    ensures
        r@ == lift1(s@, |v: i16| not_i16(v)),
{
    let mut out: Vec<Option<i16>> = Vec::with_capacity(s.len());
    let mut i: usize = 0;
    while i < s.len()
        invariant
            i <= s@.len(),
            out@.len() == i,
            forall|j: int| 0 <= j < i ==> out@[j] == lift1(s@, |v: i16| not_i16(v))[j],
        decreases s@.len() - i,
    {
        let item: Option<i16> = s[i];
        if let Some(v) = item {
            let flipped: i16 = -1i16 - v;
            assert(-1i16 - v == !v) by (bit_vector);
            assert(flipped == not_i16(v));
            out.push(Some(flipped));
        } else {
            out.push(None);
        }
        i += 1;
    }
    assert(out@ =~= lift1(s@, |v: i16| not_i16(v)));
    out
}

fn not_column_i32(s: &Vec<Option<i32>>) -> (r: Vec<Option<i32>>)
    ensures
        r@ == lift1(s@, |v: i32| not_i32(v)),
{
    let mut out: Vec<Option<i32>> = Vec::with_capacity(s.len());
    let mut i: usize = 0;
    while i < s.len()
        invariant
            i <= s@.len(),
            out@.len() == i,
            forall|j: int| 0 <= j < i ==> out@[j] == lift1(s@, |v: i32| not_i32(v))[j],
        decreases s@.len() - i,
    {
        let item: Option<i32> = s[i];
        if let Some(v) = item {
            let flipped: i32 = -1i32 - v;
            assert(-1i32 - v == !v) by (bit_vector);
            assert(flipped == not_i32(v));
            out.push(Some(flipped));
        } else {
            out.push(None);
        }
        i += 1;
    }
    assert(out@ =~= lift1(s@, |v: i32| not_i32(v)));
    out
}

fn not_column_i64(s: &Vec<Option<i64>>) -> (r: Vec<Option<i64>>)
    ensures
        r@ == lift1(s@, |v: i64| not_i64(v)),
{
    let mut out: Vec<Option<i64>> = Vec::with_capacity(s.len());
    let mut i: usize = 0;
    while i < s.len()
        invariant
            i <= s@.len(),
            out@.len() == i,
            forall|j: int| 0 <= j < i ==> out@[j] == lift1(s@, |v: i64| not_i64(v))[j],
        decreases s@.len() - i,
    {
        let item: Option<i64> = s[i];
        if let Some(v) = item {
            let flipped: i64 = -1i64 - v;
            assert(-1i64 - v == !v) by (bit_vector);
            assert(flipped == not_i64(v));
            out.push(Some(flipped));
        } else {
            out.push(None);
        }
        i += 1;
    }
    assert(out@ =~= lift1(s@, |v: i64| not_i64(v)));
    out
}

/// The `~` kernel: flips every bit of every value, keeping the width.
pub fn bit_not_inner(args: &[Column]) -> (r: Result<Column, FunctionError>)
    ensures
        column_result_view(r) == bit_not_spec(columns_view(args@)),
{
    if args.len() != 1 {
        return Err(FunctionError::Arity { expected: 1, actual: args.len() });
    }
    match &args[0] {
        Column::Int8(s) => Ok(Column::Int8(not_column_i8(s))),
        Column::Int16(s) => Ok(Column::Int16(not_column_i16(s))),
        Column::Int32(s) => Ok(Column::Int32(not_column_i32(s))),
        Column::Int64(s) => Ok(Column::Int64(not_column_i64(s))),
        Column::Binary(_) => Err(FunctionError::Type { position: 0, data_type: DataType::Binary }),
    }
}

/// Coercion of the declared argument types of `~`: any integer type, unchanged.
pub open spec fn bit_not_coerce_spec(ts: Seq<DataType>) -> Result<Seq<DataType>, FunctionError> {
    if ts.len() != 1 {
        Err(FunctionError::Arity { expected: 1, actual: ts.len() as usize })
    } else if !is_integer_type(ts[0]) {
        Err(FunctionError::Type { position: 0, data_type: ts[0] })
    } else {
        Ok(seq![ts[0]])
    }
}

/// Output type of `~`: the type of its first argument. Only an empty list is
/// an arity error.
pub open spec fn bit_not_return_spec(ts: Seq<DataType>) -> Result<DataType, FunctionError> {
    if ts.len() == 0 {
        Err(FunctionError::Arity { expected: 1, actual: 0 })
    } else {
        Ok(ts[0])
    }
}

/// Complementing a column twice gives it back, and the complement keeps the
/// column's width.
pub proof fn bit_not_involution(c: ColumnModel)
    requires
        !(c is Binary),
    ensures
        bit_not_spec(seq![c]) is Ok,
        bit_not_spec(seq![c])->Ok_0.data_type() == c.data_type(),
        bit_not_spec(seq![bit_not_spec(seq![c])->Ok_0]) == Ok::<ColumnModel, FunctionError>(c),
{
    assert forall|v: i8| #[trigger] not_i8(not_i8(v)) == v by {
        assert(!!v == v) by (bit_vector);
    }
    assert forall|v: i16| #[trigger] not_i16(not_i16(v)) == v by {
        assert(!!v == v) by (bit_vector);
    }
    assert forall|v: i32| #[trigger] not_i32(not_i32(v)) == v by {
        assert(!!v == v) by (bit_vector);
    }
    assert forall|v: i64| #[trigger] not_i64(not_i64(v)) == v by {
        assert(!!v == v) by (bit_vector);
    }
    match c {
        ColumnModel::Int8(s) => {
            assert(lift1(lift1(s, |v: i8| not_i8(v)), |v: i8| not_i8(v)) =~= s);
        },
        ColumnModel::Int16(s) => {
            assert(lift1(lift1(s, |v: i16| not_i16(v)), |v: i16| not_i16(v)) =~= s);
        },
        ColumnModel::Int32(s) => {
            assert(lift1(lift1(s, |v: i32| not_i32(v)), |v: i32| not_i32(v)) =~= s);
        },
        ColumnModel::Int64(s) => {
            assert(lift1(lift1(s, |v: i64| not_i64(v)), |v: i64| not_i64(v)) =~= s);
        },
        ColumnModel::Binary(_) => {},
    }
}

/// The bitwise complement operator, `~`.
pub struct BitNot {}

impl BitNot {
    pub fn new() -> (r: Self) {
        BitNot {  }
    }

    pub fn name(&self) -> (r: &'static str)
        ensures
            r@ == "~"@,
    {
        "~"
    }

    pub fn return_type(&self, arg_types: &[DataType]) -> (r: Result<DataType, FunctionError>)
        ensures
            r == bit_not_return_spec(arg_types@),
    {
        if arg_types.len() == 0 {
            return Err(FunctionError::Arity { expected: 1, actual: 0 });
        }
        Ok(arg_types[0])
    }

    pub fn coerce_types(&self, arg_types: &[DataType]) -> (r: Result<Vec<DataType>, FunctionError>)
        ensures
            types_result_view(r) == bit_not_coerce_spec(arg_types@),
    {
        if arg_types.len() != 1 {
            return Err(FunctionError::Arity { expected: 1, actual: arg_types.len() });
        }
        let expr_type = arg_types[0];
        if !expr_type.is_integer() {
            return Err(FunctionError::Type { position: 0, data_type: expr_type });
        }
        let v = vec![expr_type];
        assert(v@ =~= seq![expr_type]);
        Ok(v)
    }

    pub fn invoke(&self, args: &[Column]) -> (r: Result<Column, FunctionError>)
        ensures
            column_result_view(r) == bit_not_spec(columns_view(args@)),
    {
        bit_not_inner(args)
    }
}

} // verus!
