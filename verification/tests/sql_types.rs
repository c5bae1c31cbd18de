use udf::sql_types::{
    RawArg, SqlResult, SqlType, DECIMAL_RESULT, INT_RESULT, INVALID_RESULT, REAL_RESULT,
    ROW_RESULT, STRING_RESULT,
};

fn argtype_null_cases() {
    assert_eq!(SqlResult::from_raw(INT_RESULT, None), Ok(SqlResult::Int(None)));
    assert_eq!(SqlResult::from_raw(REAL_RESULT, None), Ok(SqlResult::Real(None)));
    assert_eq!(SqlResult::from_raw(STRING_RESULT, None), Ok(SqlResult::String(None)));
    assert_eq!(SqlResult::from_raw(DECIMAL_RESULT, None), Ok(SqlResult::Decimal(None)));
    assert!(SqlResult::from_raw(INVALID_RESULT, None).is_err());
}

fn argtype_notnull_cases() {
    let ival = -1000i64;
    assert_eq!(
        SqlResult::from_raw(INT_RESULT, Some(RawArg::Word(ival as u64))),
        Ok(SqlResult::Int(Some(ival)))
    );

    let rval = -1000.0f64;
    assert_eq!(
        SqlResult::from_raw(REAL_RESULT, Some(RawArg::Word(rval.to_bits()))),
        Ok(SqlResult::Real(Some(rval.to_bits())))
    );

    let sval = "this is a string";
    assert_eq!(
        SqlResult::from_raw(STRING_RESULT, Some(RawArg::Bytes(sval.as_bytes()))),
        Ok(SqlResult::String(Some(sval.as_bytes())))
    );

    let dval = "123.456";
    assert_eq!(
        SqlResult::from_raw(DECIMAL_RESULT, Some(RawArg::Bytes(dval.as_bytes()))),
        Ok(SqlResult::Decimal(Some(dval)))
    );

    assert!(SqlResult::from_raw(INVALID_RESULT, Some(RawArg::Bytes(dval.as_bytes()))).is_err());
}

#[test]
fn wrapper_impl_argtype_from_ptr_null() {
    argtype_null_cases();
}

#[test]
fn helpers_argtype_from_ptr_null() {
    argtype_null_cases();
}

#[test]
fn wrapper_impl_argtype_from_ptr_notnull() {
    argtype_notnull_cases();
}

#[test]
fn helpers_argtype_from_ptr_notnull() {
    argtype_notnull_cases();
}

#[test]
fn from_raw_error_messages() {
    assert_eq!(
        SqlResult::from_raw(INVALID_RESULT, None),
        Err("invalid arg type INVALID_RESULT received".to_owned())
    );
    assert_eq!(
        SqlResult::from_raw(ROW_RESULT, None),
        Err("invalid arg type ROW_RESULT received".to_owned())
    );
    assert_eq!(
        SqlResult::from_raw(INT_RESULT, Some(RawArg::Bytes(b"12"))),
        Err("argument data does not match its type".to_owned())
    );
    assert_eq!(
        SqlResult::from_raw(STRING_RESULT, Some(RawArg::Word(1))),
        Err("argument data does not match its type".to_owned())
    );
    assert_eq!(
        SqlResult::from_raw(DECIMAL_RESULT, Some(RawArg::Bytes(&[0xff, 0xfe]))),
        Err("argument data does not match its type".to_owned())
    );
}

#[test]
fn sql_type_codes_and_names() {
    assert_eq!(SqlType::Int.to_item_result(), 2);
    assert_eq!(SqlType::Real.to_item_result(), 1);
    assert_eq!(SqlType::String.to_item_result(), 0);
    assert_eq!(SqlType::Decimal.to_item_result(), 4);
    assert_eq!(SqlType::Int.display_name(), "int");
    assert_eq!(SqlType::Real.display_name(), "real");
    assert_eq!(SqlType::String.display_name(), "string");
    assert_eq!(SqlType::Decimal.display_name(), "decimal");
    for t in [SqlType::Int, SqlType::Real, SqlType::String, SqlType::Decimal] {
        assert_eq!(SqlType::try_from_item_result(t.to_item_result()), Ok(t));
        assert_eq!(SqlType::try_from_i8(t.to_item_result() as i8), Ok(t));
    }
    assert_eq!(
        SqlType::try_from_i8(3),
        Err("invalid arg type {tag} received".to_owned())
    );
    assert!(SqlType::try_from_item_result(-1).is_err());
    assert!(SqlType::try_from_item_result(100).is_err());
}

#[test]
fn sql_result_accessors() {
    let i = SqlResult::Int(Some(7));
    assert!(i.is_int() && !i.is_real() && !i.is_string() && !i.is_decimal());
    assert_eq!(i.as_int(), Some(7));
    assert_eq!(i.as_real(), None);
    assert_eq!(i.as_string(), None);
    assert_eq!(i.as_bytes(), None);
    assert_eq!(i.display_name(), "int");
    assert_eq!(SqlType::from_result(&i), SqlType::Int);

    let r = SqlResult::Real(Some(2.5f64.to_bits()));
    assert!(r.is_real());
    assert_eq!(r.as_real().map(f64::from_bits), Some(2.5));
    assert_eq!(r.as_int(), None);
    assert_eq!(r.display_name(), "real");

    let s = SqlResult::String(Some(b"hello"));
    assert!(s.is_string());
    assert_eq!(s.as_string(), Some("hello"));
    assert_eq!(s.as_bytes(), Some(&b"hello"[..]));
    assert_eq!(s.display_name(), "string");

    let bad = SqlResult::String(Some(&[0xc3, 0x28]));
    assert_eq!(bad.as_string(), None);
    assert_eq!(bad.as_bytes(), Some(&[0xc3u8, 0x28][..]));

    let d = SqlResult::Decimal(Some("1.50"));
    assert!(d.is_decimal());
    assert_eq!(d.as_string(), Some("1.50"));
    assert_eq!(d.as_bytes(), Some(&b"1.50"[..]));
    assert_eq!(d.display_name(), "decimal");

    assert_eq!(SqlResult::String(None).as_string(), None);
    assert_eq!(SqlResult::Decimal(None).as_bytes(), None);
    assert_eq!(SqlResult::Int(None).as_int(), None);
}
