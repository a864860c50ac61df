use uneval::convert::{convert_tuple_1, convert_tuple_3, convert_tuple_32};
use uneval::helpers::tuple_converter;
use uneval::sink::StringSink;
use uneval::to_string;
use uneval::value::Value;

fn emit(v: &Value) -> String {
    to_string(v).expect("an in-memory emission never fails")
}

#[test]
fn group_of_three_emits_a_dispatch_call() {
    let v = Value::Tuple(vec![
        Value::I32(1),
        Value::F32(format!("{}", 2.0f32)),
        Value::Str("x".to_string()),
    ]);
    assert_eq!(
        emit(&v),
        "::uneval::convert::convert_tuple_3((1i32,2f32,\"x\".into(),))"
    );
}

#[test]
fn group_of_three_builds_a_tuple_or_an_array() {
    let t: (i32, f32, String) = convert_tuple_3((1i32, 2f32, "x".into()));
    assert_eq!(t, (1i32, 2.0f32, "x".to_string()));
    let a: [i64; 3] = convert_tuple_3((1i64, 2i64, 3i64));
    assert_eq!(a, [1i64, 2i64, 3i64]);
}

#[test]
fn group_of_one_keeps_its_trailing_separator() {
    let v = Value::Tuple(vec![Value::U8(7)]);
    assert_eq!(emit(&v), "::uneval::convert::convert_tuple_1((7u8,))");
    let t: (u8,) = convert_tuple_1((7u8,));
    assert_eq!(t.0, 7u8);
    let a: [u8; 1] = convert_tuple_1((7u8,));
    assert_eq!(a, [7u8]);
}

#[test]
fn zero_arity_emits_a_bare_empty_array_literal() {
    let v = Value::Tuple(vec![]);
    assert_eq!(emit(&v), "[]");
    let a: [u8; 0] = [];
    assert_eq!(a.len(), 0);
}

#[test]
fn the_configured_maximum_arity_still_resolves() {
    let mut elems = Vec::new();
    for i in 0..32 {
        elems.push(Value::I32(i));
    }
    let text = emit(&Value::Tuple(elems));
    assert!(text.starts_with("::uneval::convert::convert_tuple_32((0i32,1i32,"));
    assert!(text.ends_with("31i32,))"));
    let a: [i32; 32] = convert_tuple_32((
        0, 1, 2, 3, 4, 5, 6, 7, 8, 9, 10, 11, 12, 13, 14, 15, 16, 17, 18, 19, 20, 21, 22, 23,
        24, 25, 26, 27, 28, 29, 30, 31,
    ));
    for i in 0..32 {
        assert_eq!(a[i], i as i32);
    }
}

#[test]
fn runtime_for_zero_arity_is_a_direct_conversion() {
    let mut sink = StringSink::new();
    tuple_converter(&mut sink, 0).unwrap();
    let text = sink.into_string();
    assert_eq!(
        text,
        "\n        #[inline]\n        fn convert<T>(_: ()) -> [T; 0] {\n            []\n        }\n    "
    );
}

#[test]
fn runtime_for_arity_two_declares_both_builders() {
    let mut sink = StringSink::new();
    tuple_converter(&mut sink, 2).unwrap();
    let text = sink.into_string();
    assert!(text.contains("trait FromTuple<T>: Sized {"));
    assert!(text.contains("impl<T> FromTuple<(T,T,)> for [T; 2] {"));
    assert!(text.contains("[tuple.0,tuple.1]"));
    assert!(text.contains("impl<T0,T1> FromTuple<(T0,T1,)> for (T0,T1,) {"));
    assert!(text.contains("fn convert<T0,T1, Out: FromTuple<(T0,T1,)>>(tuple: (T0,T1,)) -> Out {"));
}

#[test]
fn runtime_for_arity_one_lists_a_single_slot() {
    let mut sink = StringSink::new();
    tuple_converter(&mut sink, 1).unwrap();
    let text = sink.into_string();
    assert!(text.contains("impl<T> FromTuple<(T,)> for [T; 1] {"));
    assert!(text.contains("[tuple.0]"));
    assert!(text.contains("impl<T0> FromTuple<(T0,)> for (T0,) {"));
}
