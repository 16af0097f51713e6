use crate::types::{DataType, FunctionError};
use vstd::prelude::*;

verus! {

/// A column of nullable values, all of one physical type.
#[derive(Clone, Debug, PartialEq)]
pub enum Column {
    Int8(Vec<Option<i8>>),
    Int16(Vec<Option<i16>>),
    Int32(Vec<Option<i32>>),
    Int64(Vec<Option<i64>>),
    Binary(Vec<Option<Vec<u8>>>),
}

/// The mathematical content of a column: its values, row by row.
pub enum ColumnModel {
    Int8(Seq<Option<i8>>),
    Int16(Seq<Option<i16>>),
    Int32(Seq<Option<i32>>),
    Int64(Seq<Option<i64>>),
    Binary(Seq<Option<Seq<u8>>>),
}

pub open spec fn bytes_view(o: Option<Vec<u8>>) -> Option<Seq<u8>> {
    match o {
        Some(b) => Some(b@),
        None => None,
    }
}

impl View for Column {
    type V = ColumnModel;

    open spec fn view(&self) -> ColumnModel {
        match self {
            Column::Int8(v) => ColumnModel::Int8(v@),
            Column::Int16(v) => ColumnModel::Int16(v@),
            Column::Int32(v) => ColumnModel::Int32(v@),
            Column::Int64(v) => ColumnModel::Int64(v@),
            Column::Binary(v) => ColumnModel::Binary(v@.map_values(|o: Option<Vec<u8>>| bytes_view(o))),
        }
    }
}

impl ColumnModel {
    pub open spec fn len(self) -> nat {
        match self {
            ColumnModel::Int8(s) => s.len(),
            ColumnModel::Int16(s) => s.len(),
            ColumnModel::Int32(s) => s.len(),
            ColumnModel::Int64(s) => s.len(),
            ColumnModel::Binary(s) => s.len(),
        }
    }

    pub open spec fn data_type(self) -> DataType {
        match self {
            ColumnModel::Int8(_) => DataType::Int8,
            ColumnModel::Int16(_) => DataType::Int16,
            ColumnModel::Int32(_) => DataType::Int32,
            ColumnModel::Int64(_) => DataType::Int64,
            ColumnModel::Binary(_) => DataType::Binary,
        }
    }

    /// Whether row `i` holds no value.
    pub open spec fn is_null(self, i: int) -> bool {
        match self {
            ColumnModel::Int8(s) => s[i] is None,
            ColumnModel::Int16(s) => s[i] is None,
            ColumnModel::Int32(s) => s[i] is None,
            ColumnModel::Int64(s) => s[i] is None,
            ColumnModel::Binary(s) => s[i] is None,
        }
    }
}

impl Column {
    pub fn len(&self) -> (r: usize)
        ensures
            r == self@.len(),
    {
        match self {
            Column::Int8(v) => v.len(),
            Column::Int16(v) => v.len(),
            Column::Int32(v) => v.len(),
            Column::Int64(v) => v.len(),
            Column::Binary(v) => v.len(),
        }
    }

    pub fn data_type(&self) -> (r: DataType)
        ensures
            r == self@.data_type(),
    {
        match self {
            Column::Int8(_) => DataType::Int8,
            Column::Int16(_) => DataType::Int16,
            Column::Int32(_) => DataType::Int32,
            Column::Int64(_) => DataType::Int64,
            Column::Binary(_) => DataType::Binary,
        }
    }
}

/// Applies `f` to every present value, keeping nulls in place.
pub open spec fn lift1<A, B>(s: Seq<Option<A>>, f: spec_fn(A) -> B) -> Seq<Option<B>> {
    Seq::new(
        s.len(),
        |i: int|
            match s[i] {
                Some(a) => Some(f(a)),
                None => None,
            },
    )
}

/// Applies `f` row by row to two columns; a row is null where either input is.
pub open spec fn lift2<A, B, C>(s: Seq<Option<A>>, t: Seq<Option<B>>, f: spec_fn(A, B) -> C) -> Seq<
    Option<C>,
> {
    Seq::new(
        s.len(),
        |i: int|
            match (s[i], t[i]) {
                (Some(a), Some(b)) => Some(f(a, b)),
                _ => None,
            },
    )
}

pub open spec fn column_result_view(r: Result<Column, FunctionError>) -> Result<
    ColumnModel,
    FunctionError,
> {
    match r {
        Ok(c) => Ok(c@),
        Err(e) => Err(e),
    }
}

pub open spec fn types_result_view(r: Result<Vec<DataType>, FunctionError>) -> Result<
    Seq<DataType>,
    FunctionError,
> {
    match r {
        Ok(v) => Ok(v@),
        Err(e) => Err(e),
    }
}

/// The models of a list of argument columns.
pub open spec fn columns_view(args: Seq<Column>) -> Seq<ColumnModel> {
    args.map_values(|c: Column| c@)
}

} // verus!
