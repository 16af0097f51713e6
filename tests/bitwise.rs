use sail_bitwise::bits::{bit_get_binary, bit_get_int, count_ones_u64};
use sail_bitwise::registry::list_built_in_bitwise_functions;
use sail_bitwise::{
    BinaryOperator, BitCount, BitGet, BitNot, BitwiseFunction, BuiltIn, Column, DataType,
    FunctionError, ShiftRightUnsigned,
};

#[test]
fn bit_count_integer_widths() {
    let r = BitCount::new().invoke(&[Column::Int8(vec![Some(-1), Some(0), Some(5), None])]);
    assert_eq!(r, Ok(Column::Int32(vec![Some(8), Some(0), Some(2), None])));
    let r = BitCount::new().invoke(&[Column::Int16(vec![Some(-1), Some(i16::MIN)])]);
    assert_eq!(r, Ok(Column::Int32(vec![Some(16), Some(1)])));
    let r = BitCount::new().invoke(&[Column::Int32(vec![Some(-1), Some(255)])]);
    assert_eq!(r, Ok(Column::Int32(vec![Some(32), Some(8)])));
    let r = BitCount::new().invoke(&[Column::Int64(vec![Some(-1), Some(i64::MAX), None])]);
    assert_eq!(r, Ok(Column::Int32(vec![Some(64), Some(63), None])));
}

#[test]
fn bit_count_binary_sums_bytes() {
    let r = BitCount::new().invoke(&[Column::Binary(vec![
        Some(vec![]),
        Some(vec![0xFF, 0x01, 0xA5]),
        None,
    ])]);
    assert_eq!(r, Ok(Column::Int32(vec![Some(0), Some(13), None])));
}

#[test]
fn count_ones_matches_std() {
    for x in [0u64, 1, 2, 3, 0xA5, u64::MAX, 1 << 63, 0x1234_5678_9ABC_DEF0] {
        assert_eq!(count_ones_u64(x), x.count_ones());
    }
}

#[test]
fn bit_get_int_out_of_range_is_zero() {
    for v in [-1i64, 0, 1, i64::MIN, i64::MAX] {
        assert_eq!(bit_get_int(v, -1), 0);
        assert_eq!(bit_get_int(v, 64), 0);
        assert_eq!(bit_get_int(v, i64::MIN), 0);
    }
}

#[test]
fn bit_get_int_in_range_shifts_and_masks() {
    for v in [-1i64, 0, 5, -8, i64::MIN, i64::MAX, 0x1234_5678] {
        for pos in 0..64i64 {
            assert_eq!(bit_get_int(v, pos) as i64, (v >> pos) & 1);
        }
    }
    assert_eq!(bit_get_int(-1, 63), 1);
    assert_eq!(bit_get_int(5, 1), 0);
    assert_eq!(bit_get_int(5, 2), 1);
}

#[test]
fn bit_get_binary_counts_from_top_bit() {
    let s = [0xA5u8];
    assert_eq!(bit_get_binary(&s, 0), 1);
    assert_eq!(bit_get_binary(&s, 7), 1);
    assert_eq!(bit_get_binary(&s, 1), 0);
    assert_eq!(bit_get_binary(&s, 8), 0);
    assert_eq!(bit_get_binary(&s, -1), 0);
    assert_eq!(bit_get_binary(&[0x00, 0x80], 8), 1);
}

#[test]
fn bit_get_kernel_with_nulls() {
    let r = BitGet::new().invoke(&[
        Column::Binary(vec![Some(vec![0xA5]), Some(vec![0xA5]), None, Some(vec![0xA5])]),
        Column::Int32(vec![Some(0), Some(1), Some(0), None]),
    ]);
    assert_eq!(r, Ok(Column::Int8(vec![Some(1), Some(0), None, None])));
    let r = BitGet::new().invoke(&[
        Column::Int16(vec![Some(-1), Some(4), Some(4), None]),
        Column::Int32(vec![Some(70), Some(2), Some(-3), Some(-3)]),
    ]);
    assert_eq!(r, Ok(Column::Int8(vec![Some(0), Some(1), Some(0), None])));
}

#[test]
fn bit_get_arity_errors() {
    let g = BitGet::new();
    assert_eq!(
        g.coerce_types(&[DataType::Int32]),
        Err(FunctionError::Arity { expected: 2, actual: 1 })
    );
    assert_eq!(
        g.coerce_types(&[DataType::Int32, DataType::Int32, DataType::Int32]),
        Err(FunctionError::Arity { expected: 2, actual: 3 })
    );
    assert_eq!(
        g.invoke(&[Column::Int32(vec![Some(1)])]),
        Err(FunctionError::Arity { expected: 2, actual: 1 })
    );
}

#[test]
fn bit_get_coercion() {
    let g = BitGet::new();
    assert_eq!(
        g.coerce_types(&[DataType::Binary, DataType::UInt64]),
        Ok(vec![DataType::Binary, DataType::Int32])
    );
    assert_eq!(
        g.coerce_types(&[DataType::Utf8, DataType::Int32]),
        Err(FunctionError::Type { position: 0, data_type: DataType::Utf8 })
    );
    assert_eq!(
        g.coerce_types(&[DataType::Int64, DataType::Boolean]),
        Err(FunctionError::Type { position: 1, data_type: DataType::Boolean })
    );
    assert_eq!(g.return_type(&[DataType::Int64, DataType::Int32]), Ok(DataType::Int8));
}

#[test]
fn kernel_length_mismatch_is_exec_error() {
    let r = BitGet::new().invoke(&[
        Column::Int32(vec![Some(1), Some(2)]),
        Column::Int32(vec![Some(0)]),
    ]);
    assert_eq!(r, Err(FunctionError::Exec { expected_len: 2, actual_len: 1 }));
    let r = ShiftRightUnsigned::new().invoke(&[
        Column::Int64(vec![Some(1)]),
        Column::Int32(vec![]),
    ]);
    assert_eq!(r, Err(FunctionError::Exec { expected_len: 1, actual_len: 0 }));
}

#[test]
fn kernel_position_type_error() {
    let r = BitGet::new().invoke(&[
        Column::Int32(vec![Some(1)]),
        Column::Int64(vec![Some(0)]),
    ]);
    assert_eq!(r, Err(FunctionError::Type { position: 1, data_type: DataType::Int64 }));
}

#[test]
fn bit_not_involution_and_width() {
    let c = Column::Int8(vec![Some(0), Some(-1), Some(i8::MIN), Some(5), None]);
    let once = BitNot::new().invoke(&[c.clone()]);
    assert_eq!(once, Ok(Column::Int8(vec![Some(-1), Some(0), Some(i8::MAX), Some(-6), None])));
    let twice = BitNot::new().invoke(&[once.unwrap()]);
    assert_eq!(twice, Ok(c));
    let c = Column::Int64(vec![Some(i64::MAX), None]);
    let twice = BitNot::new().invoke(&[BitNot::new().invoke(&[c.clone()]).unwrap()]);
    assert_eq!(twice, Ok(c));
    let r = BitNot::new().invoke(&[Column::Int16(vec![Some(0x0F0F)])]);
    assert_eq!(r, Ok(Column::Int16(vec![Some(!0x0F0Fi16)])));
    let r = BitNot::new().invoke(&[Column::Int32(vec![Some(7)])]);
    assert_eq!(r, Ok(Column::Int32(vec![Some(-8)])));
}

#[test]
fn bit_not_rejects_binary() {
    assert_eq!(
        BitNot::new().invoke(&[Column::Binary(vec![Some(vec![1])])]),
        Err(FunctionError::Type { position: 0, data_type: DataType::Binary })
    );
    assert_eq!(
        BitNot::new().coerce_types(&[DataType::Binary]),
        Err(FunctionError::Type { position: 0, data_type: DataType::Binary })
    );
    assert_eq!(BitNot::new().coerce_types(&[DataType::UInt16]), Ok(vec![DataType::UInt16]));
    assert_eq!(BitNot::new().return_type(&[DataType::Int16]), Ok(DataType::Int16));
    assert_eq!(
        BitNot::new().return_type(&[]),
        Err(FunctionError::Arity { expected: 1, actual: 0 })
    );
}

#[test]
fn shift_right_unsigned_lanes() {
    let s = ShiftRightUnsigned::new();
    let r = s.invoke(&[Column::Int8(vec![Some(-1)]), Column::Int32(vec![Some(1)])]);
    assert_eq!(r, Ok(Column::Int32(vec![Some(127)])));
    let r = s.invoke(&[Column::Int64(vec![Some(-8)]), Column::Int32(vec![Some(1)])]);
    assert_eq!(r, Ok(Column::Int64(vec![Some(9223372036854775804)])));
    let r = s.invoke(&[Column::Int16(vec![Some(-1)]), Column::Int32(vec![Some(4)])]);
    assert_eq!(r, Ok(Column::Int32(vec![Some(0x0FFF)])));
    let r = s.invoke(&[Column::Int32(vec![Some(-1), None]), Column::Int32(vec![Some(1), Some(1)])]);
    assert_eq!(r, Ok(Column::Int32(vec![Some(i32::MAX), None])));
}

#[test]
fn shift_right_unsigned_amount_wraps_modulo_lane() {
    let s = ShiftRightUnsigned::new();
    let r = s.invoke(&[Column::Int32(vec![Some(-1), Some(256)]), Column::Int32(vec![Some(32), Some(33)])]);
    assert_eq!(r, Ok(Column::Int32(vec![Some(-1), Some(128)])));
    let r = s.invoke(&[Column::Int64(vec![Some(-1)]), Column::Int32(vec![Some(-1)])]);
    assert_eq!(r, Ok(Column::Int64(vec![Some(1)])));
}

#[test]
fn shift_right_unsigned_types() {
    let s = ShiftRightUnsigned::new();
    assert_eq!(s.return_type(&[DataType::Int8, DataType::Int32]), Ok(DataType::Int32));
    assert_eq!(s.return_type(&[DataType::Int64, DataType::Int32]), Ok(DataType::Int64));
    assert_eq!(
        s.return_type(&[DataType::Binary, DataType::Int32]),
        Err(FunctionError::Type { position: 0, data_type: DataType::Binary })
    );
    assert_eq!(
        s.coerce_types(&[DataType::Int16, DataType::UInt8]),
        Ok(vec![DataType::Int16, DataType::Int32])
    );
    assert_eq!(
        s.coerce_types(&[DataType::UInt32, DataType::Int8]),
        Err(FunctionError::Type { position: 0, data_type: DataType::UInt32 })
    );
    assert_eq!(
        s.invoke(&[Column::Binary(vec![]), Column::Int32(vec![])]),
        Err(FunctionError::Type { position: 0, data_type: DataType::Binary })
    );
}

#[test]
fn bit_count_coercion() {
    let b = BitCount::new();
    assert_eq!(b.coerce_types(&[DataType::Binary]), Ok(vec![DataType::Binary]));
    assert_eq!(
        b.coerce_types(&[DataType::UInt8]),
        Err(FunctionError::Type { position: 0, data_type: DataType::UInt8 })
    );
    assert_eq!(
        b.coerce_types(&[]),
        Err(FunctionError::Arity { expected: 1, actual: 0 })
    );
    assert_eq!(b.return_type(&[DataType::Int64]), Ok(DataType::Int32));
}

#[test]
fn null_rows_stay_null() {
    let fs = [
        BitwiseFunction::BitCount,
        BitwiseFunction::BitGet,
        BitwiseFunction::BitNot,
        BitwiseFunction::ShiftRightUnsigned,
    ];
    for f in fs {
        let args = match f {
            BitwiseFunction::BitCount | BitwiseFunction::BitNot => {
                vec![Column::Int64(vec![None, Some(3)])]
            }
            _ => vec![Column::Int64(vec![Some(3), None]), Column::Int32(vec![None, Some(100)])],
        };
        let out = f.execute(&args).unwrap();
        match out {
            Column::Int8(v) => assert!(v[0].is_none()),
            Column::Int32(v) => assert!(v[0].is_none()),
            Column::Int64(v) => assert!(v[0].is_none()),
            _ => panic!("unexpected output column"),
        }
    }
}

#[test]
fn resolve_then_derive_never_fails() {
    let types = [
        DataType::Null,
        DataType::Boolean,
        DataType::Int8,
        DataType::Int16,
        DataType::Int32,
        DataType::Int64,
        DataType::UInt8,
        DataType::UInt16,
        DataType::UInt32,
        DataType::UInt64,
        DataType::Utf8,
        DataType::Binary,
        DataType::Other,
    ];
    let fs = [
        BitwiseFunction::BitCount,
        BitwiseFunction::BitGet,
        BitwiseFunction::BitNot,
        BitwiseFunction::ShiftRightUnsigned,
    ];
    for f in fs {
        for a in types {
            for b in types {
                for args in [vec![a], vec![a, b]] {
                    if let Ok(coerced) = f.resolve(&args) {
                        assert!(f.derive_output_type(&coerced).is_ok());
                    }
                }
            }
        }
    }
}

#[test]
fn registration_table() {
    let t = list_built_in_bitwise_functions();
    assert_eq!(t.len(), 9);
    assert!(t.contains(&("getbit", BuiltIn::Function(BitwiseFunction::BitGet))));
    assert!(t.contains(&("~", BuiltIn::Function(BitwiseFunction::BitNot))));
    assert!(t.contains(&("|", BuiltIn::BinaryOp(BinaryOperator::BitwiseOr))));
    assert_eq!(BitwiseFunction::ShiftRightUnsigned.name(), "shiftrightunsigned");
    assert_eq!(BitCount::new().name(), "bit_count");
}

#[test]
fn output_type_decided_by_first_type() {
    let s = ShiftRightUnsigned::new();
    assert_eq!(s.return_type(&[DataType::Int8]), Ok(DataType::Int32));
    assert_eq!(s.return_type(&[DataType::Int16]), Ok(DataType::Int32));
    assert_eq!(
        s.return_type(&[DataType::Int64, DataType::Int32, DataType::Int8]),
        Ok(DataType::Int64)
    );
    assert_eq!(
        s.return_type(&[DataType::UInt32]),
        Err(FunctionError::Type { position: 0, data_type: DataType::UInt32 })
    );
    assert_eq!(s.return_type(&[]), Err(FunctionError::Arity { expected: 2, actual: 0 }));
    let n = BitNot::new();
    assert_eq!(n.return_type(&[DataType::Int16, DataType::Int8]), Ok(DataType::Int16));
}
