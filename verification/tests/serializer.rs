use uneval::error::CoronaError;
use uneval::ser::Uneval;
use uneval::sink::{LimitedSink, StringSink};
use uneval::to_string;
use uneval::value::Value;

fn emit(v: &Value) -> String {
    to_string(v).expect("an in-memory emission never fails")
}

#[test]
fn scalar_bool_literals() {
    assert_eq!(emit(&Value::Bool(true)), "true");
    assert_eq!(emit(&Value::Bool(false)), "false");
    let round: bool = emit(&Value::Bool(true)).parse().unwrap();
    assert!(round);
}

#[test]
fn scalar_unsigned_literals_keep_width_suffix() {
    assert_eq!(emit(&Value::U8(12)), "12u8");
    assert_eq!(emit(&Value::U16(0)), "0u16");
    assert_eq!(emit(&Value::U32(4000000000)), "4000000000u32");
    assert_eq!(emit(&Value::U64(u64::MAX)), format!("{}u64", u64::MAX));
    assert_eq!(emit(&Value::U128(u128::MAX)), format!("{}u128", u128::MAX));
    let text = emit(&Value::U8(12));
    let round: u8 = text.strip_suffix("u8").unwrap().parse().unwrap();
    assert_eq!(round, 12u8);
}

#[test]
fn scalar_signed_literals_keep_width_suffix() {
    assert_eq!(emit(&Value::I8(-5)), "-5i8");
    assert_eq!(emit(&Value::I16(300)), "300i16");
    assert_eq!(emit(&Value::I32(-2147483648)), "-2147483648i32");
    assert_eq!(emit(&Value::I64(i64::MIN)), format!("{}i64", i64::MIN));
    assert_eq!(emit(&Value::I128(i128::MIN)), format!("{}i128", i128::MIN));
    let text = emit(&Value::I32(-42));
    let round: i32 = text.strip_suffix("i32").unwrap().parse().unwrap();
    assert_eq!(round, -42i32);
}

#[test]
fn integral_float_still_gets_float_suffix() {
    let one = format!("{}", 1.0f32);
    assert_eq!(emit(&Value::F32(one)), "1f32");
    let pi = format!("{}", 3.25f64);
    assert_eq!(emit(&Value::F64(pi)), "3.25f64");
    let round: f32 = "1f32".strip_suffix("f32").unwrap().parse().unwrap();
    assert_eq!(round, 1.0f32);
}

#[test]
fn string_literal_carries_conversion_call() {
    assert_eq!(emit(&Value::Str("hi".to_string())), "\"hi\".into()");
    assert_eq!(emit(&Value::Str(String::new())), "\"\".into()");
    let reconstructed: String = "hi".into();
    assert_eq!(reconstructed, "hi");
}

#[test]
fn char_literal() {
    assert_eq!(emit(&Value::Char('c')), "'c'");
    let round: char = 'c';
    assert_eq!(round, 'c');
}

#[test]
fn unit_values_and_named_units() {
    assert_eq!(emit(&Value::Unit), "()");
    assert_eq!(emit(&Value::UnitStruct("Marker".to_string())), "Marker");
    assert_eq!(
        emit(&Value::UnitVariant("Shape".to_string(), "Point".to_string())),
        "Shape::Point"
    );
}

#[test]
fn options_emit_their_constructors() {
    assert_eq!(emit(&Value::NoneVal), "None");
    assert_eq!(emit(&Value::SomeVal(Box::new(Value::U8(1)))), "Some(1u8)");
}

#[test]
fn newtypes_and_variants() {
    assert_eq!(
        emit(&Value::NewtypeStruct("Meters".to_string(), Box::new(Value::U32(7)))),
        "Meters(7u32)"
    );
    assert_eq!(
        emit(&Value::NewtypeVariant(
            "Shape".to_string(),
            "Circle".to_string(),
            Box::new(Value::U32(7)),
        )),
        "Shape::Circle(7u32)"
    );
    assert_eq!(
        emit(&Value::TupleVariant(
            "Shape".to_string(),
            "Rect".to_string(),
            vec![Value::U32(2), Value::U32(3)],
        )),
        "Shape::Rect(2u32,3u32)"
    );
    assert_eq!(
        emit(&Value::StructVariant(
            "Shape".to_string(),
            "Square".to_string(),
            vec![("side".to_string(), Value::U32(4))],
        )),
        "Shape::Square {side: 4u32}"
    );
}

#[test]
fn tuple_struct_elements_in_order() {
    assert_eq!(
        emit(&Value::TupleStruct(
            "Pair".to_string(),
            vec![Value::Unit, Value::NoneVal, Value::SomeVal(Box::new(Value::U8(1)))],
        )),
        "Pair((),None,Some(1u8))"
    );
}

#[test]
fn struct_fields_in_declared_order() {
    let v = Value::Struct(
        "Config".to_string(),
        vec![
            ("boolean".to_string(), Value::Bool(true)),
            ("number".to_string(), Value::I32(1)),
            ("string".to_string(), Value::Str("string".to_string())),
        ],
    );
    assert_eq!(
        emit(&v),
        "Config {boolean: true,number: 1i32,string: \"string\".into()}"
    );
}

#[test]
fn sequence_separator_counts() {
    assert_eq!(emit(&Value::Sequence(vec![])), "vec![].into_iter().collect()");
    assert_eq!(
        emit(&Value::Sequence(vec![Value::U8(1)])),
        "vec![1u8].into_iter().collect()"
    );
    let three = emit(&Value::Sequence(vec![Value::U8(1), Value::U8(2), Value::U8(3)]));
    assert_eq!(three, "vec![1u8,2u8,3u8].into_iter().collect()");
    let body = three
        .strip_prefix("vec![")
        .unwrap()
        .strip_suffix("].into_iter().collect()")
        .unwrap();
    assert_eq!(body.matches(',').count(), 2);
    assert!(!body.starts_with(','));
    assert!(!body.ends_with(','));
}

#[test]
fn nested_sequences_keep_levels_apart() {
    let v = Value::Sequence(vec![
        Value::Sequence(vec![]),
        Value::Sequence(vec![Value::U8(1)]),
    ]);
    assert_eq!(
        emit(&v),
        "vec![vec![].into_iter().collect(),vec![1u8].into_iter().collect()].into_iter().collect()"
    );
}

#[test]
fn bytes_emit_as_a_byte_sequence() {
    assert_eq!(
        emit(&Value::Bytes(vec![1, 2, 255])),
        "vec![1u8,2u8,255u8].into_iter().collect()"
    );
    assert_eq!(emit(&Value::Bytes(vec![])), "vec![].into_iter().collect()");
}

#[test]
fn map_round_trip() {
    let v = Value::Mapping(vec![
        (Value::I32(1), Value::Str("first".to_string())),
        (Value::I32(100), Value::Str("one hundredth".to_string())),
    ]);
    assert_eq!(
        emit(&v),
        "vec![(1i32,\"first\".into()),(100i32,\"one hundredth\".into())].into_iter().collect()"
    );
    let reconstructed: std::collections::HashMap<i32, String> =
        vec![(1, "first".into()), (100, "one hundredth".into())].into_iter().collect();
    assert_eq!(reconstructed.len(), 2);
    assert_eq!(reconstructed[&1], "first");
    assert_eq!(reconstructed[&100], "one hundredth");
}

#[test]
fn failing_sink_aborts_with_write_error_and_no_further_writes() {
    let v = Value::Sequence(vec![Value::U8(1), Value::U8(2)]);
    let full = emit(&v);
    let mut ser = Uneval::new(LimitedSink::new(2));
    let r = ser.serialize_value(&v);
    assert!(matches!(r, Err(CoronaError::Io(_))));
    let written = ser.into_sink().into_string();
    assert_eq!(written, "vec![1u8");
    assert!(full.starts_with(&written));
    assert!(written.len() < full.len());
}

#[test]
fn sink_with_zero_budget_rejects_the_first_write() {
    let mut ser = Uneval::new(LimitedSink::new(0));
    let r = ser.serialize_value(&Value::Bool(true));
    assert!(matches!(r, Err(CoronaError::Io(_))));
    assert_eq!(ser.into_sink().into_string(), "");
}

#[test]
fn generous_budget_lets_emission_finish() {
    let v = Value::Sequence(vec![Value::U8(1), Value::U8(2)]);
    let mut ser = Uneval::new(LimitedSink::new(100));
    assert!(ser.serialize_value(&v).is_ok());
    assert_eq!(ser.into_sink().into_string(), emit(&v));
}

#[test]
fn manual_serializer_over_a_string_sink() {
    let mut ser = Uneval::new(StringSink::new());
    ser.serialize_bool(true).unwrap();
    ser.serialize_i8(-3).unwrap();
    ser.serialize_str("x").unwrap();
    assert_eq!(ser.into_sink().into_string(), "true-3i8\"x\".into()");
}

#[test]
fn comma_is_owed_only_after_a_first_item() {
    let mut ser = Uneval::new(StringSink::new());
    ser.start_sub();
    ser.serialize_item(&Value::U8(1)).unwrap();
    ser.serialize_item(&Value::U8(2)).unwrap();
    ser.comma().unwrap();
    assert_eq!(ser.into_sink().into_string(), "1u8,2u8,");
}

#[test]
fn custom_error_keeps_its_message() {
    let e = CoronaError::custom("unrepresentable".to_string());
    assert!(matches!(e, CoronaError::Custom(m) if m == "unrepresentable"));
}
