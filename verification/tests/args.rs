use udf::arg::{ArgData, ArgList, ArgValue};
use udf::coerce::get_coercion;
use udf::sql_types::{SqlResult, SqlType, DECIMAL_RESULT, INT_RESULT, REAL_RESULT, STRING_RESULT};
use udf::traits::{Init, Process};

const IVAL: i64 = -1000i64;
const RVAL: f64 = -1234.5678f64;
const SVAL: &str = "this is a string";
const DVAL: &str = "123.456";

fn data(value: ArgValue, arg_type: i32, maybe_null: bool, attr: &str) -> ArgData {
    ArgData { value, arg_type, maybe_null, attribute: attr.to_owned() }
}

fn four_args() -> Vec<ArgData> {
    vec![
        data(ArgValue::Int(Some(IVAL)), INT_RESULT, true, "ival"),
        data(ArgValue::Real(Some(RVAL.to_bits())), REAL_RESULT, true, "rval"),
        data(ArgValue::String(Some(SVAL.as_bytes().to_vec())), STRING_RESULT, false, "sval"),
        data(ArgValue::Decimal(Some(DVAL.to_owned())), DECIMAL_RESULT, false, "dval"),
    ]
}

fn process_args_case() {
    let arglist: ArgList<Init> = ArgList::try_new(four_args()).unwrap();
    let res = arglist.as_vec();

    let expected_args = [
        SqlResult::Int(Some(IVAL)),
        SqlResult::Real(Some(RVAL.to_bits())),
        SqlResult::String(Some(SVAL.as_bytes())),
        SqlResult::Decimal(Some(DVAL)),
    ];
    let maybe_null = [true, true, false, false];
    let attrs = ["ival", "rval", "sval", "dval"];

    for i in 0..4 {
        assert_eq!(res[i].value(), expected_args[i]);
        assert_eq!(res[i].maybe_null(), maybe_null[i]);
        assert_eq!(res[i].attribute(), attrs[i]);
    }
}

#[test]
fn wrapper_impl_process_args_ok() {
    process_args_case();
}

#[test]
fn helpers_process_args_ok() {
    process_args_case();
}

#[test]
fn get_out_of_range_is_none() {
    let arglist: ArgList<Process> = ArgList::try_new(four_args()).unwrap();
    assert_eq!(arglist.len(), 4);
    assert!(!arglist.is_empty());
    assert!(arglist.get(3).is_some());
    assert!(arglist.get(4).is_none());
    let empty: ArgList<Process> = ArgList::try_new(Vec::new()).unwrap();
    assert!(empty.is_empty());
    assert!(empty.get(0).is_none());
}

#[test]
fn iter_walks_all_args() {
    let arglist: ArgList<Process> = ArgList::try_new(four_args()).unwrap();
    let mut it = arglist.iter();
    assert_eq!(it.size_hint(), (4, Some(4)));
    let mut seen = Vec::new();
    while let Some(a) = it.next() {
        seen.push(a.attribute().to_owned());
    }
    assert_eq!(seen, vec!["ival", "rval", "sval", "dval"]);
    assert_eq!(it.size_hint(), (0, Some(0)));
    assert!(it.next().is_none());
}

#[test]
fn invalid_type_code_is_refused() {
    let args = vec![data(ArgValue::Int(Some(1)), 3, false, "row")];
    assert!(ArgList::<Init>::try_new(args).is_none());
    let args = vec![data(ArgValue::Int(Some(1)), -1, false, "bad")];
    assert!(!ArgList::<Init>::all_types_usable(&args));
}

#[test]
fn coercion_is_recorded_and_flushed() {
    let mut arglist: ArgList<Init> = ArgList::try_new(four_args()).unwrap();
    assert_eq!(arglist.get(1).unwrap().get_type_coercion(), SqlType::Real);

    arglist.set_type_coercion(1, SqlType::Int);
    let a1 = arglist.get(1).unwrap();
    assert_eq!(a1.get_type_coercion(), SqlType::Int);
    // the value is not changed by a coercion request
    assert_eq!(a1.value(), SqlResult::Real(Some(RVAL.to_bits())));
    let codes = arglist.type_codes();
    assert_eq!(get_coercion(codes[1]), Some(INT_RESULT));

    arglist.flush_all_coercions();
    assert_eq!(arglist.type_codes(), vec![INT_RESULT, INT_RESULT, STRING_RESULT, DECIMAL_RESULT]);
    assert_eq!(arglist.get(1).unwrap().get_type_coercion(), SqlType::Int);
}

#[test]
fn is_const_follows_value_presence() {
    let args = vec![
        data(ArgValue::Int(None), INT_RESULT, true, "a"),
        data(ArgValue::String(Some(vec![1])), STRING_RESULT, false, "b"),
    ];
    let arglist: ArgList<Init> = ArgList::try_new(args).unwrap();
    assert!(!arglist.get(0).unwrap().is_const());
    assert!(arglist.get(1).unwrap().is_const());
}

#[test]
fn arg_value_roundtrip() {
    let r = SqlResult::Decimal(Some("9.99"));
    let v = ArgValue::from_result(&r);
    assert_eq!(v.as_result(), r);
    let r = SqlResult::String(Some(b"xy"));
    let v = ArgValue::from_result(&r);
    assert_eq!(v.as_result(), r);
}

#[test]
fn value_of_another_type_than_its_code_is_refused() {
    let args = vec![data(ArgValue::Int(Some(1)), STRING_RESULT, false, "mismatch")];
    assert!(!ArgList::<Init>::all_values_match(&args));
    assert!(ArgList::<Init>::try_new(args).is_none());
}

#[test]
fn coercion_reads_back_value_type_until_set() {
    let mut arglist: ArgList<Init> = ArgList::try_new(four_args()).unwrap();
    let expected = [SqlType::Int, SqlType::Real, SqlType::String, SqlType::Decimal];
    for (i, t) in expected.iter().enumerate() {
        let a = arglist.get(i).unwrap();
        assert_eq!(a.get_type_coercion(), *t);
        assert_eq!(a.value().display_name(), t.display_name());
    }
    // the last coercion wins
    arglist.set_type_coercion(2, SqlType::Int);
    arglist.set_type_coercion(2, SqlType::Decimal);
    assert_eq!(arglist.get(2).unwrap().get_type_coercion(), SqlType::Decimal);
}

#[test]
fn flush_one_coercion_clears_marker_and_is_idempotent() {
    let mut arglist: ArgList<Init> = ArgList::try_new(four_args()).unwrap();
    arglist.set_type_coercion(3, SqlType::Real);
    arglist.flush_coercion(3);
    let codes = arglist.type_codes();
    assert_eq!(codes, vec![INT_RESULT, REAL_RESULT, STRING_RESULT, REAL_RESULT]);
    assert_eq!(get_coercion(codes[3]), None);
    assert_eq!(arglist.get(3).unwrap().get_type_coercion(), SqlType::Real);
    arglist.flush_coercion(3);
    assert_eq!(arglist.type_codes(), codes);
}
