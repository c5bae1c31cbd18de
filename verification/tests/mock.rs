use udf::mock::{MockArg, MockArgData, MockArgList};
use udf::sql_types::SqlResult;

#[test]
fn test_mock_args_macro() {
    let _args = MockArgList::from_args(vec![
        // assuming id of 1
        MockArg::new(MockArgData::from_int(1), "1", false),
        MockArg::new(MockArgData::from_str("some string"), "some string", false),
        MockArg::new(MockArgData::from_int(1000), "value", false),
        // By default anything in "" will be a string - you can specify the `MockArgData` type
        MockArg::new(MockArgData::from_decimal("1.234"), "1.234", false),
        MockArg::new(MockArgData::Int(None), "NULL", false),
        MockArg::new(MockArgData::Decimal(None), "NULL", false),
        MockArg::new(MockArgData::Decimal(None), "NULL", true),
    ]);
}

#[test]
fn mock_list_builds_values() {
    let mut l = MockArgList::from_args(vec![
        MockArg::new(MockArgData::from_str("input value"), "first arg", false),
        MockArg::new(MockArgData::from_int(5), "second arg", false),
        MockArg::new(MockArgData::from_real_bits(1.5f64.to_bits()), "third", true),
        MockArg::new(MockArgData::from_bytes(&[0xff]), "fourth", true),
        MockArg::new(MockArgData::from_opt_str(None), "fifth", true),
    ]);
    {
        let args = l.as_init();
        assert_eq!(args.len(), 5);
        let a0 = args.get(0).unwrap();
        assert_eq!(a0.attribute(), "first arg");
        assert_eq!(a0.value().as_string(), Some("input value"));
        assert!(!a0.maybe_null());
        let a1 = args.get(1).unwrap();
        assert_eq!(a1.value().as_int(), Some(5));
        let a2 = args.get(2).unwrap();
        assert_eq!(a2.value().as_real().map(f64::from_bits), Some(1.5));
        assert!(a2.maybe_null());
        assert_eq!(args.get(3).unwrap().value(), SqlResult::String(Some(&[0xff])));
        assert_eq!(args.get(4).unwrap().value(), SqlResult::String(None));
    }
    let mut more = MockArg::new(MockArgData::from_int(1), "x", false);
    *more.value() = MockArgData::from_opt_int(Some(2));
    more.attribute().push_str("y");
    l.push_arg(more);
    let args = l.as_process();
    assert_eq!(args.len(), 6);
    assert_eq!(args.get(5).unwrap().value().as_int(), Some(2));
    assert_eq!(args.get(5).unwrap().attribute(), "xy");
}
