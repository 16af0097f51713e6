use crate::bits::{binary_bit, bit_get_binary, bit_get_int, int_bit};
use crate::column::{
    bytes_view, column_result_view, columns_view, lift2, types_result_view, Column, ColumnModel,
};
use crate::types::{is_integer_type, DataType, FunctionError};
use vstd::prelude::*;

verus! {

/// Result of `bit_get` on argument columns: the value column and an `Int32`
/// column of bit positions of the same length.
pub open spec fn bit_get_spec(args: Seq<ColumnModel>) -> Result<ColumnModel, FunctionError> {
    if args.len() != 2 {
        Err(FunctionError::Arity { expected: 2, actual: args.len() as usize })
    } else {
        match args[1] {
            ColumnModel::Int32(p) => {
                if args[0].len() != p.len() {
                    Err(
                        FunctionError::Exec {
                            expected_len: args[0].len() as usize,
                            actual_len: p.len() as usize,
                        },
                    )
                } else {
                    Ok(
                        ColumnModel::Int8(
                            match args[0] {
                                ColumnModel::Int8(s) => lift2(
                                    s,
                                    p,
                                    |v: i8, q: i32| int_bit(v as i64, q as i64),
                                ),
                                ColumnModel::Int16(s) => lift2(
                                    s,
                                    p,
                                    |v: i16, q: i32| int_bit(v as i64, q as i64),
                                ),
                                ColumnModel::Int32(s) => lift2(
                                    s,
                                    p,
                                    |v: i32, q: i32| int_bit(v as i64, q as i64),
                                ),
                                ColumnModel::Int64(s) => lift2(
                                    s,
                                    p,
                                    |v: i64, q: i32| int_bit(v as i64, q as i64),
                                ),
                                ColumnModel::Binary(s) => lift2(
                                    s,
                                    p,
                                    |b: Seq<u8>, q: i32| binary_bit(b, q as int),
                                ),
                            },
                        ),
                    )
                }
            },
            other => Err(FunctionError::Type { position: 1, data_type: other.data_type() }),
        }
    }
}

fn get_column_i8(s: &Vec<Option<i8>>, p: &Vec<Option<i32>>) -> (r: Vec<Option<i8>>)
    requires
        s@.len() == p@.len(),
    ensures
        r@ == lift2(s@, p@, |v: i8, q: i32| int_bit(v as i64, q as i64)),
{
    let mut out: Vec<Option<i8>> = Vec::with_capacity(s.len());
    let mut i: usize = 0;
    while i < s.len()
        invariant
            i <= s@.len(),
            s@.len() == p@.len(),
            out@.len() == i,
            forall|j: int|
                0 <= j < i ==> out@[j] == lift2(s@, p@, |v: i8, q: i32| int_bit(v as i64, q as i64))[j],
        decreases s@.len() - i,
    {
        match (s[i], p[i]) {
            (Some(v), Some(q)) => out.push(Some(bit_get_int(v as i64, q as i64))),
            _ => out.push(None),
        }
        i += 1;
    }
    assert(out@ =~= lift2(s@, p@, |v: i8, q: i32| int_bit(v as i64, q as i64)));
    out
}

fn get_column_i16(s: &Vec<Option<i16>>, p: &Vec<Option<i32>>) -> (r: Vec<Option<i8>>)
    requires
        s@.len() == p@.len(),
    ensures
        r@ == lift2(s@, p@, |v: i16, q: i32| int_bit(v as i64, q as i64)),
{
    let mut out: Vec<Option<i8>> = Vec::with_capacity(s.len());
    let mut i: usize = 0;
    while i < s.len()
        invariant
            i <= s@.len(),
            s@.len() == p@.len(),
            out@.len() == i,
            forall|j: int|
                0 <= j < i ==> out@[j] == lift2(s@, p@, |v: i16, q: i32| int_bit(v as i64, q as i64))[j],
        decreases s@.len() - i,
    {
        match (s[i], p[i]) {
            (Some(v), Some(q)) => out.push(Some(bit_get_int(v as i64, q as i64))),
            _ => out.push(None),
        }
        i += 1;
    }
    assert(out@ =~= lift2(s@, p@, |v: i16, q: i32| int_bit(v as i64, q as i64)));
    out
}

fn get_column_i32(s: &Vec<Option<i32>>, p: &Vec<Option<i32>>) -> (r: Vec<Option<i8>>)
    requires
        s@.len() == p@.len(),
    ensures
        r@ == lift2(s@, p@, |v: i32, q: i32| int_bit(v as i64, q as i64)),
{
    let mut out: Vec<Option<i8>> = Vec::with_capacity(s.len());
    let mut i: usize = 0;
    while i < s.len()
        invariant
            i <= s@.len(),
            s@.len() == p@.len(),
            out@.len() == i,
            forall|j: int|
                0 <= j < i ==> out@[j] == lift2(s@, p@, |v: i32, q: i32| int_bit(v as i64, q as i64))[j],
        decreases s@.len() - i,
    {
        match (s[i], p[i]) {
            (Some(v), Some(q)) => out.push(Some(bit_get_int(v as i64, q as i64))),
            _ => out.push(None),
        }
        i += 1;
    }
    assert(out@ =~= lift2(s@, p@, |v: i32, q: i32| int_bit(v as i64, q as i64)));
    out
}

fn get_column_i64(s: &Vec<Option<i64>>, p: &Vec<Option<i32>>) -> (r: Vec<Option<i8>>)
    requires
        s@.len() == p@.len(),
    ensures
        r@ == lift2(s@, p@, |v: i64, q: i32| int_bit(v as i64, q as i64)),
{
    let mut out: Vec<Option<i8>> = Vec::with_capacity(s.len());
    let mut i: usize = 0;
    while i < s.len()
        invariant
            i <= s@.len(),
            s@.len() == p@.len(),
            out@.len() == i,
            forall|j: int|
                0 <= j < i ==> out@[j] == lift2(s@, p@, |v: i64, q: i32| int_bit(v as i64, q as i64))[j],
        decreases s@.len() - i,
    {
        match (s[i], p[i]) {
            (Some(v), Some(q)) => out.push(Some(bit_get_int(v as i64, q as i64))),
            _ => out.push(None),
        }
        i += 1;
    }
    assert(out@ =~= lift2(s@, p@, |v: i64, q: i32| int_bit(v as i64, q as i64)));
    out
}

fn get_column_bytes(s: &Vec<Option<Vec<u8>>>, p: &Vec<Option<i32>>) -> (r: Vec<Option<i8>>)
    requires
        s@.len() == p@.len(),
    ensures
        r@ == lift2(
            s@.map_values(|o: Option<Vec<u8>>| bytes_view(o)),
            p@,
            |b: Seq<u8>, q: i32| binary_bit(b, q as int),
        ),
{
    let ghost m = s@.map_values(|o: Option<Vec<u8>>| bytes_view(o));
    let mut out: Vec<Option<i8>> = Vec::with_capacity(s.len());
    let mut i: usize = 0;
    while i < s.len()
        invariant
            i <= s@.len(),
            s@.len() == p@.len(),
            m == s@.map_values(|o: Option<Vec<u8>>| bytes_view(o)),
            out@.len() == i,
            forall|j: int|
                0 <= j < i ==> out@[j] == lift2(m, p@, |b: Seq<u8>, q: i32| binary_bit(b, q as int))[j],
        decreases s@.len() - i,
    {
        match (&s[i], p[i]) {
            (Some(b), Some(q)) => out.push(Some(bit_get_binary(b.as_slice(), q as i64))),
            _ => out.push(None),
        }
        i += 1;
    }
    assert(out@ =~= lift2(m, p@, |b: Seq<u8>, q: i32| binary_bit(b, q as int)));
    out
}

/// The `bit_get` kernel: for each row, the bit of the value at the given
/// position, or null where either argument is null.
pub fn bit_get_inner(args: &[Column]) -> (r: Result<Column, FunctionError>)
    ensures
        column_result_view(r) == bit_get_spec(columns_view(args@)),
{
    if args.len() != 2 {
        return Err(FunctionError::Arity { expected: 2, actual: args.len() });
    }
    let p = match &args[1] {
        Column::Int32(p) => p,
        other => {
            return Err(FunctionError::Type { position: 1, data_type: other.data_type() });
        },
    };
    let n = args[0].len();
    if n != p.len() {
        return Err(FunctionError::Exec { expected_len: n, actual_len: p.len() });
    }
    let out = match &args[0] {
        Column::Int8(s) => get_column_i8(s, p),
        Column::Int16(s) => get_column_i16(s, p),
        Column::Int32(s) => get_column_i32(s, p),
        Column::Int64(s) => get_column_i64(s, p),
        Column::Binary(s) => get_column_bytes(s, p),
    };
    Ok(Column::Int8(out))
}

/// Types that `bit_get` takes as its first argument.
pub open spec fn bit_get_accepts(t: DataType) -> bool {
    match t {
        DataType::Int8 | DataType::Int16 | DataType::Int32 | DataType::Int64
        | DataType::Binary => true,
        _ => false,
    }
}

/// Coercion of the declared argument types of `bit_get`: the value keeps its
/// type, the position of any integer type becomes `Int32`.
pub open spec fn bit_get_coerce_spec(ts: Seq<DataType>) -> Result<Seq<DataType>, FunctionError> {
    if ts.len() != 2 {
        Err(FunctionError::Arity { expected: 2, actual: ts.len() as usize })
    } else if !bit_get_accepts(ts[0]) {
        Err(FunctionError::Type { position: 0, data_type: ts[0] })
    } else if !is_integer_type(ts[1]) {
        Err(FunctionError::Type { position: 1, data_type: ts[1] })
    } else {
        Ok(seq![ts[0], DataType::Int32])
    }
}

/// The single-bit extraction function, `bit_get` (also `getbit`).
pub struct BitGet {}

impl BitGet {
    pub fn new() -> (r: Self) {
        BitGet {  }
    }

    pub fn name(&self) -> (r: &'static str)
        ensures
            r@ == "bit_get"@,
    {
        "bit_get"
    }

    /// Always a single bit, as `Int8`.
    pub fn return_type(&self, _arg_types: &[DataType]) -> (r: Result<DataType, FunctionError>)
        ensures
            r == Ok::<DataType, FunctionError>(DataType::Int8),
    {
        Ok(DataType::Int8)
    }

    pub fn coerce_types(&self, arg_types: &[DataType]) -> (r: Result<Vec<DataType>, FunctionError>)
        ensures
            types_result_view(r) == bit_get_coerce_spec(arg_types@),
    {
        if arg_types.len() != 2 {
            return Err(FunctionError::Arity { expected: 2, actual: arg_types.len() });
        }
        let expr_type = arg_types[0];
        match expr_type {
            DataType::Int8 | DataType::Int16 | DataType::Int32 | DataType::Int64
            | DataType::Binary => {},
            _ => {
                return Err(FunctionError::Type { position: 0, data_type: expr_type });
            },
        }
        let pos_type = arg_types[1];
        if !pos_type.is_integer() {
            return Err(FunctionError::Type { position: 1, data_type: pos_type });
        }
        let v = vec![expr_type, DataType::Int32];
        assert(v@ =~= seq![expr_type, DataType::Int32]);
        Ok(v)
    }

    pub fn invoke(&self, args: &[Column]) -> (r: Result<Column, FunctionError>)
        ensures
            column_result_view(r) == bit_get_spec(columns_view(args@)),
    {
        bit_get_inner(args)
    }
}

} // verus!
