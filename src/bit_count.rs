use crate::bits::{bytes_popcount, count_ones_u64, lemma_popcount_le_width, popcount};
use vstd::arithmetic::power2::lemma2_to64;
use crate::column::{
    bytes_view, column_result_view, columns_view, lift1, types_result_view, Column, ColumnModel,
};
use crate::types::{DataType, FunctionError};
use vstd::prelude::*;

verus! {

/// Ones in the 8-bit two's-complement pattern of a value.
pub open spec fn count_i8(v: i8) -> i32 {
    popcount((v as u8) as nat) as i32
}

/// Ones in the 16-bit two's-complement pattern of a value.
pub open spec fn count_i16(v: i16) -> i32 {
    popcount((v as u16) as nat) as i32
}

/// Ones in the 32-bit two's-complement pattern of a value.
pub open spec fn count_i32(v: i32) -> i32 {
    popcount((v as u32) as nat) as i32
}

/// Ones in the 64-bit two's-complement pattern of a value.
pub open spec fn count_i64(v: i64) -> i32 {
    popcount((v as u64) as nat) as i32
}

/// Ones in all the bytes of a byte string, as a 32-bit count.
pub open spec fn count_bytes(s: Seq<u8>) -> i32 {
    bytes_popcount(s) as i32
}

/// Result of `bit_count` on argument columns.
pub open spec fn bit_count_spec(args: Seq<ColumnModel>) -> Result<ColumnModel, FunctionError> {
    if args.len() != 1 {
        Err(FunctionError::Arity { expected: 1, actual: args.len() as usize })
    } else {
        Ok(
            ColumnModel::Int32(
                match args[0] {
                    ColumnModel::Int8(s) => lift1(s, |v: i8| count_i8(v)),
                    ColumnModel::Int16(s) => lift1(s, |v: i16| count_i16(v)),
                    ColumnModel::Int32(s) => lift1(s, |v: i32| count_i32(v)),
                    ColumnModel::Int64(s) => lift1(s, |v: i64| count_i64(v)),
                    ColumnModel::Binary(s) => lift1(s, |b: Seq<u8>| count_bytes(b)),
                },
            ),
        )
    }
}

fn count_column_i8(s: &Vec<Option<i8>>) -> (r: Vec<Option<i32>>)
    ensures
        r@ == lift1(s@, |v: i8| count_i8(v)),
{
    let mut out: Vec<Option<i32>> = Vec::with_capacity(s.len());
    let mut i: usize = 0;
    while i < s.len()
        invariant
            i <= s@.len(),
            out@.len() == i,
            forall|j: int| 0 <= j < i ==> out@[j] == lift1(s@, |v: i8| count_i8(v))[j],
        decreases s@.len() - i,
    {
        match s[i] {
            Some(v) => out.push(Some(count_ones_u64(v as u8 as u64) as i32)),
            None => out.push(None),
        }
        i += 1;
    }
    assert(out@ =~= lift1(s@, |v: i8| count_i8(v)));
    out
}

fn count_column_i16(s: &Vec<Option<i16>>) -> (r: Vec<Option<i32>>)
    ensures
        r@ == lift1(s@, |v: i16| count_i16(v)),
{
    let mut out: Vec<Option<i32>> = Vec::with_capacity(s.len());
    let mut i: usize = 0;
    while i < s.len()
        invariant
            i <= s@.len(),
            out@.len() == i,
            forall|j: int| 0 <= j < i ==> out@[j] == lift1(s@, |v: i16| count_i16(v))[j],
        decreases s@.len() - i,
    {
        match s[i] {
            Some(v) => out.push(Some(count_ones_u64(v as u16 as u64) as i32)),
            None => out.push(None),
        }
        i += 1;
    }
    assert(out@ =~= lift1(s@, |v: i16| count_i16(v)));
    out
}

fn count_column_i32(s: &Vec<Option<i32>>) -> (r: Vec<Option<i32>>)
    ensures
        r@ == lift1(s@, |v: i32| count_i32(v)),
{
    let mut out: Vec<Option<i32>> = Vec::with_capacity(s.len());
    let mut i: usize = 0;
    while i < s.len()
        invariant
            i <= s@.len(),
            out@.len() == i,
            forall|j: int| 0 <= j < i ==> out@[j] == lift1(s@, |v: i32| count_i32(v))[j],
        decreases s@.len() - i,
    {
        match s[i] {
            Some(v) => out.push(Some(count_ones_u64(v as u32 as u64) as i32)),
            None => out.push(None),
        }
        i += 1;
    }
    assert(out@ =~= lift1(s@, |v: i32| count_i32(v)));
    out
}

fn count_column_i64(s: &Vec<Option<i64>>) -> (r: Vec<Option<i32>>)
    ensures
        r@ == lift1(s@, |v: i64| count_i64(v)),
{
    let mut out: Vec<Option<i32>> = Vec::with_capacity(s.len());
    let mut i: usize = 0;
    while i < s.len()
        invariant
            i <= s@.len(),
            out@.len() == i,
            forall|j: int| 0 <= j < i ==> out@[j] == lift1(s@, |v: i64| count_i64(v))[j],
        decreases s@.len() - i,
    {
        match s[i] {
            Some(v) => out.push(Some(count_ones_u64(v as u64) as i32)),
            None => out.push(None),
        }
        i += 1;
    }
    assert(out@ =~= lift1(s@, |v: i64| count_i64(v)));
    out
}

fn count_bytes_exec(b: &Vec<u8>) -> (r: i32)
    ensures
        r == count_bytes(b@),
{
    let mut sum: u128 = 0;
    let mut i: usize = 0;
    while i < b.len()
        invariant
            i <= b@.len(),
            sum == bytes_popcount(b@.take(i as int)),
            sum <= 8 * i,
        decreases b@.len() - i,
    {
        let c: u32 = count_ones_u64(b[i] as u64);
        proof {
            lemma2_to64();
            lemma_popcount_le_width(b@[i as int] as nat, 8);
            assert(b@.take(i + 1).drop_last() =~= b@.take(i as int));
        }
        sum = sum + c as u128;
        i += 1;
    }
    assert(b@.take(b@.len() as int) =~= b@);
    sum as i32
}

fn count_column_bytes(s: &Vec<Option<Vec<u8>>>) -> (r: Vec<Option<i32>>)
    ensures
        r@ == lift1(s@.map_values(|o: Option<Vec<u8>>| bytes_view(o)), |b: Seq<u8>| count_bytes(b)),
{
    let ghost m = s@.map_values(|o: Option<Vec<u8>>| bytes_view(o));
    let mut out: Vec<Option<i32>> = Vec::with_capacity(s.len());
    let mut i: usize = 0;
    while i < s.len()
        invariant
            i <= s@.len(),
            m == s@.map_values(|o: Option<Vec<u8>>| bytes_view(o)),
            out@.len() == i,
            forall|j: int| 0 <= j < i ==> out@[j] == lift1(m, |b: Seq<u8>| count_bytes(b))[j],
        decreases s@.len() - i,
    {
        match &s[i] {
            Some(b) => out.push(Some(count_bytes_exec(b))),
            None => out.push(None),
        }
        i += 1;
    }
    assert(out@ =~= lift1(m, |b: Seq<u8>| count_bytes(b)));
    out
}

/// The `bit_count` kernel: population count of every value, as a 32-bit
/// count; byte strings count the ones of all their bytes.
pub fn bit_count_inner(args: &[Column]) -> (r: Result<Column, FunctionError>)
    ensures
        column_result_view(r) == bit_count_spec(columns_view(args@)),
{
    if args.len() != 1 {
        return Err(FunctionError::Arity { expected: 1, actual: args.len() });
    }
    let out = match &args[0] {
        Column::Int8(s) => count_column_i8(s),
        Column::Int16(s) => count_column_i16(s),
        Column::Int32(s) => count_column_i32(s),
        Column::Int64(s) => count_column_i64(s),
        Column::Binary(s) => count_column_bytes(s),
    };
    Ok(Column::Int32(out))
}

/// Types that `bit_count` takes as its argument.
pub open spec fn bit_count_accepts(t: DataType) -> bool {
    match t {
        DataType::Int8 | DataType::Int16 | DataType::Int32 | DataType::Int64
        | DataType::Binary => true,
        _ => false,
    }
}

/// Coercion of the declared argument types of `bit_count`.
pub open spec fn bit_count_coerce_spec(ts: Seq<DataType>) -> Result<Seq<DataType>, FunctionError> {
    if ts.len() != 1 {
        Err(FunctionError::Arity { expected: 1, actual: ts.len() as usize })
    } else if !bit_count_accepts(ts[0]) {
        Err(FunctionError::Type { position: 0, data_type: ts[0] })
    } else {
        Ok(seq![ts[0]])
    }
}

/// The population-count function, `bit_count`.
pub struct BitCount {}

impl BitCount {
    pub fn new() -> (r: Self) {
        BitCount {  }
    }

    pub fn name(&self) -> (r: &'static str)
        ensures
            r@ == "bit_count"@,
    {
        "bit_count"
    }

    /// Always a 32-bit count.
    pub fn return_type(&self, _arg_types: &[DataType]) -> (r: Result<DataType, FunctionError>)
        ensures
            r == Ok::<DataType, FunctionError>(DataType::Int32),
    {
        Ok(DataType::Int32)
    }

    pub fn coerce_types(&self, arg_types: &[DataType]) -> (r: Result<Vec<DataType>, FunctionError>)
        ensures
            types_result_view(r) == bit_count_coerce_spec(arg_types@),
    {
        if arg_types.len() != 1 {
            return Err(FunctionError::Arity { expected: 1, actual: arg_types.len() });
        }
        match arg_types[0] {
            DataType::Int8 | DataType::Int16 | DataType::Int32 | DataType::Int64
            | DataType::Binary => {
                let v = vec![arg_types[0]];
                assert(v@ =~= seq![arg_types@[0]]);
                Ok(v)
            },
            _ => Err(FunctionError::Type { position: 0, data_type: arg_types[0] }),
        }
    }

    pub fn invoke(&self, args: &[Column]) -> (r: Result<Column, FunctionError>)
        ensures
            column_result_view(r) == bit_count_spec(columns_view(args@)),
    {
        bit_count_inner(args)
    }
}

} // verus!
