use crate::column::{column_result_view, columns_view, lift2, types_result_view, Column, ColumnModel};
use crate::types::{is_integer_type, is_signed_integer_type, DataType, FunctionError};
use vstd::prelude::*;

verus! {

/// Logical right shift in the 32-bit lane. The shift amount is taken modulo
/// the lane width (its low five bits), so every amount, negative or too
/// large, has a defined result.
pub open spec fn shr_lane32(bits: u32, shift: i32) -> i32 {
    (bits >> ((shift as u32) & 31u32)) as i32
}

/// Logical right shift in the 64-bit lane, the amount taken modulo 64.
pub open spec fn shr_lane64(bits: u64, shift: i32) -> i64 {
    (bits >> ((shift as u64) & 63u64)) as i64
}

fn lane32(bits: u32, shift: i32) -> (r: i32)
    ensures
        r == shr_lane32(bits, shift),
{
    let amount: u32 = (shift as u32) & 31;
    assert((shift as u32) & 31u32 < 32) by (bit_vector);
    (bits >> amount) as i32
}

fn lane64(bits: u64, shift: i32) -> (r: i64)
    ensures
        r == shr_lane64(bits, shift),
{
    let amount: u64 = (shift as u64) & 63;
    assert((shift as u64) & 63u64 < 64) by (bit_vector);
    (bits >> amount) as i64
}

/// Result of `shiftrightunsigned` on argument columns. Values of 8, 16 and
/// 32 bits are zero-extended from their own width into the 32-bit lane;
/// 64-bit values use the 64-bit lane.
pub open spec fn shift_right_unsigned_spec(args: Seq<ColumnModel>) -> Result<
    ColumnModel,
    FunctionError,
> {
    if args.len() != 2 {
        Err(FunctionError::Arity { expected: 2, actual: args.len() as usize })
    } else if args[0] is Binary {
        Err(FunctionError::Type { position: 0, data_type: DataType::Binary })
    } else {
        match args[1] {
            ColumnModel::Int32(p) => {
                if args[0].len() != p.len() {
                    Err(
                        FunctionError::Exec {
                            expected_len: args[0].len() as usize,
                            actual_len: p.len() as usize,
                        },
                    )
                } else {
                    match args[0] {
                        ColumnModel::Int8(s) => Ok(
                            ColumnModel::Int32(
                                lift2(s, p, |v: i8, q: i32| shr_lane32(v as u8 as u32, q)),
                            ),
                        ),
                        ColumnModel::Int16(s) => Ok(
                            ColumnModel::Int32(
                                lift2(s, p, |v: i16, q: i32| shr_lane32(v as u16 as u32, q)),
                            ),
                        ),
                        ColumnModel::Int32(s) => Ok(
                            ColumnModel::Int32(lift2(s, p, |v: i32, q: i32| shr_lane32(v as u32, q))),
                        ),
                        ColumnModel::Int64(s) => Ok(
                            ColumnModel::Int64(lift2(s, p, |v: i64, q: i32| shr_lane64(v as u64, q))),
                        ),
                        ColumnModel::Binary(_) => Err(
                            FunctionError::Type { position: 0, data_type: DataType::Binary },
                        ),
                    }
                }
            },
            other => Err(FunctionError::Type { position: 1, data_type: other.data_type() }),
        }
    }
}

fn shift_column_i8(s: &Vec<Option<i8>>, p: &Vec<Option<i32>>) -> (r: Vec<Option<i32>>)
    requires
        s@.len() == p@.len(),
    ensures
        r@ == lift2(s@, p@, |v: i8, q: i32| shr_lane32(v as u8 as u32, q)),
{
    let mut out: Vec<Option<i32>> = Vec::with_capacity(s.len());
    let mut i: usize = 0;
    while i < s.len()
        invariant
            i <= s@.len(),
            s@.len() == p@.len(),
            out@.len() == i,
            forall|j: int| 0 <= j < i ==> out@[j] == lift2(s@, p@, |v: i8, q: i32| shr_lane32(v as u8 as u32, q))[j],
        decreases s@.len() - i,
    {
        match (s[i], p[i]) {
            (Some(v), Some(q)) => out.push(Some(lane32(v as u8 as u32, q))),
            _ => out.push(None),
        }
        i += 1;
    }
    assert(out@ =~= lift2(s@, p@, |v: i8, q: i32| shr_lane32(v as u8 as u32, q)));
    out
}

fn shift_column_i16(s: &Vec<Option<i16>>, p: &Vec<Option<i32>>) -> (r: Vec<Option<i32>>)
    requires
        s@.len() == p@.len(),
    ensures
        r@ == lift2(s@, p@, |v: i16, q: i32| shr_lane32(v as u16 as u32, q)),
{
    let mut out: Vec<Option<i32>> = Vec::with_capacity(s.len());
    let mut i: usize = 0;
    while i < s.len()
        invariant
            i <= s@.len(),
            s@.len() == p@.len(),
            out@.len() == i,
            forall|j: int| 0 <= j < i ==> out@[j] == lift2(s@, p@, |v: i16, q: i32| shr_lane32(v as u16 as u32, q))[j],
        decreases s@.len() - i,
    {
        match (s[i], p[i]) {
            (Some(v), Some(q)) => out.push(Some(lane32(v as u16 as u32, q))),
            _ => out.push(None),
        }
        i += 1;
    }
    assert(out@ =~= lift2(s@, p@, |v: i16, q: i32| shr_lane32(v as u16 as u32, q)));
    out
}

fn shift_column_i32(s: &Vec<Option<i32>>, p: &Vec<Option<i32>>) -> (r: Vec<Option<i32>>)
    requires
        s@.len() == p@.len(),
    ensures
        r@ == lift2(s@, p@, |v: i32, q: i32| shr_lane32(v as u32, q)),
{
    let mut out: Vec<Option<i32>> = Vec::with_capacity(s.len());
    let mut i: usize = 0;
    while i < s.len()
        invariant
            i <= s@.len(),
            s@.len() == p@.len(),
            out@.len() == i,
            forall|j: int| 0 <= j < i ==> out@[j] == lift2(s@, p@, |v: i32, q: i32| shr_lane32(v as u32, q))[j],
        decreases s@.len() - i,
    {
        match (s[i], p[i]) {
            (Some(v), Some(q)) => out.push(Some(lane32(v as u32, q))),
            _ => out.push(None),
        }
        i += 1;
    }
    assert(out@ =~= lift2(s@, p@, |v: i32, q: i32| shr_lane32(v as u32, q)));
    out
}

fn shift_column_i64(s: &Vec<Option<i64>>, p: &Vec<Option<i32>>) -> (r: Vec<Option<i64>>)
    requires
        s@.len() == p@.len(),
    ensures
        r@ == lift2(s@, p@, |v: i64, q: i32| shr_lane64(v as u64, q)),
{
    let mut out: Vec<Option<i64>> = Vec::with_capacity(s.len());
    let mut i: usize = 0;
    while i < s.len()
        invariant
            i <= s@.len(),
            s@.len() == p@.len(),
            out@.len() == i,
            forall|j: int| 0 <= j < i ==> out@[j] == lift2(s@, p@, |v: i64, q: i32| shr_lane64(v as u64, q))[j],
        decreases s@.len() - i,
    {
        match (s[i], p[i]) {
            (Some(v), Some(q)) => out.push(Some(lane64(v as u64, q))),
            _ => out.push(None),
        }
        i += 1;
    }
    assert(out@ =~= lift2(s@, p@, |v: i64, q: i32| shr_lane64(v as u64, q)));
    out
}

/// The `shiftrightunsigned` kernel: logical right shift of every value by the
/// row's shift amount, null where either argument is null.
pub fn shift_right_unsigned_inner(args: &[Column]) -> (r: Result<Column, FunctionError>)
    ensures
        column_result_view(r) == shift_right_unsigned_spec(columns_view(args@)),
{
    if args.len() != 2 {
        return Err(FunctionError::Arity { expected: 2, actual: args.len() });
    }
    if let Column::Binary(_) = &args[0] {
        return Err(FunctionError::Type { position: 0, data_type: DataType::Binary });
    }
    let p = match &args[1] {
        Column::Int32(p) => p,
        other => {
            return Err(FunctionError::Type { position: 1, data_type: other.data_type() });
        },
    };
    let n = args[0].len();
    if n != p.len() {
        return Err(FunctionError::Exec { expected_len: n, actual_len: p.len() });
    }
    match &args[0] {
        Column::Int8(s) => Ok(Column::Int32(shift_column_i8(s, p))),
        Column::Int16(s) => Ok(Column::Int32(shift_column_i16(s, p))),
        Column::Int32(s) => Ok(Column::Int32(shift_column_i32(s, p))),
        Column::Int64(s) => Ok(Column::Int64(shift_column_i64(s, p))),
        Column::Binary(_) => Err(FunctionError::Type { position: 0, data_type: DataType::Binary }),
    }
}

/// Coercion of the declared argument types of `shiftrightunsigned`: a signed
/// integer, unchanged, and a shift amount of any integer type, as `Int32`.
pub open spec fn shift_right_unsigned_coerce_spec(ts: Seq<DataType>) -> Result<
    Seq<DataType>,
    FunctionError,
> {
    if ts.len() != 2 {
        Err(FunctionError::Arity { expected: 2, actual: ts.len() as usize })
    } else if !is_signed_integer_type(ts[0]) {
        Err(FunctionError::Type { position: 0, data_type: ts[0] })
    } else if !is_integer_type(ts[1]) {
        Err(FunctionError::Type { position: 1, data_type: ts[1] })
    } else {
        Ok(seq![ts[0], DataType::Int32])
    }
}

/// Output type of `shiftrightunsigned`, decided by the first type alone:
/// `Int32` for the 32-bit lane, `Int64` for the 64-bit lane. Only an empty
/// list is an arity error.
pub open spec fn shift_right_unsigned_return_spec(ts: Seq<DataType>) -> Result<
    DataType,
    FunctionError,
> {
    if ts.len() == 0 {
        Err(FunctionError::Arity { expected: 2, actual: 0 })
    } else {
        match ts[0] {
            DataType::Int8 | DataType::Int16 | DataType::Int32 => Ok(DataType::Int32),
            DataType::Int64 => Ok(DataType::Int64),
            other => Err(FunctionError::Type { position: 0, data_type: other }),
        }
    }
}

/// The logical right shift function, `shiftrightunsigned`.
pub struct ShiftRightUnsigned {}

impl ShiftRightUnsigned {
    pub fn new() -> (r: Self) {
        ShiftRightUnsigned {  }
    }

    pub fn name(&self) -> (r: &'static str)
        ensures
            r@ == "shiftrightunsigned"@,
    {
        "shiftrightunsigned"
    }

    pub fn return_type(&self, arg_types: &[DataType]) -> (r: Result<DataType, FunctionError>)
        ensures
            r == shift_right_unsigned_return_spec(arg_types@),
    {
        if arg_types.len() == 0 {
            return Err(FunctionError::Arity { expected: 2, actual: 0 });
        }
        match arg_types[0] {
            DataType::Int8 | DataType::Int16 | DataType::Int32 => Ok(DataType::Int32),
            DataType::Int64 => Ok(DataType::Int64),
            other => Err(FunctionError::Type { position: 0, data_type: other }),
        }
    }

    pub fn coerce_types(&self, arg_types: &[DataType]) -> (r: Result<Vec<DataType>, FunctionError>)
        ensures
            types_result_view(r) == shift_right_unsigned_coerce_spec(arg_types@),
    {
        if arg_types.len() != 2 {
            return Err(FunctionError::Arity { expected: 2, actual: arg_types.len() });
        }
        let expr_type = arg_types[0];
        if !expr_type.is_signed_integer() {
            return Err(FunctionError::Type { position: 0, data_type: expr_type });
        }
        let shift_type = arg_types[1];
        if !shift_type.is_integer() {
            return Err(FunctionError::Type { position: 1, data_type: shift_type });
        }
        let v = vec![expr_type, DataType::Int32];
        assert(v@ =~= seq![expr_type, DataType::Int32]);
        Ok(v)
    }

    pub fn invoke(&self, args: &[Column]) -> (r: Result<Column, FunctionError>)
        ensures
            column_result_view(r) == shift_right_unsigned_spec(columns_view(args@)),
    {
        shift_right_unsigned_inner(args)
    }
}

} // verus!
