use udf::examples::{
    avg_cost_check_args, avg_cost_row, choose_ipv6, decimal_string, lookup6_check_args, IsConst, ResolvedAddr,
    SqlSequence, SumInt,
};
use udf::mock::{MockArg, MockArgData, MockArgList, MockUdfCfg};
use udf::sql_types::SqlType;
use udf::traits::BasicUdf;

fn ints(vals: &[Option<i64>]) -> MockArgList {
    let mut l = MockArgList::new();
    for v in vals {
        l.push_arg(MockArg::new(MockArgData::from_opt_int(*v), "v", true));
    }
    l
}

#[test]
fn sum_int_coerces_and_sums() {
    let mut cfg = MockUdfCfg::new();
    let mut args = MockArgList::new();
    args.push_arg(MockArg::new(MockArgData::from_str("1"), "a", false));
    args.push_arg(MockArg::new(MockArgData::from_int(2), "b", false));
    let list = args.as_init();
    let mut udf = SumInt::init(cfg.as_init(), list).unwrap();
    assert_eq!(list.get(0).unwrap().get_type_coercion(), SqlType::Int);
    assert_eq!(list.get(1).unwrap().get_type_coercion(), SqlType::Int);
    assert!(*cfg.is_const());

    let mut vals = ints(&[Some(1), None, Some(40), Some(1)]);
    assert_eq!(udf.process(cfg.as_process(), vals.as_process(), None), Ok(42));
    let mut big = ints(&[Some(i64::MAX), Some(1)]);
    assert_eq!(udf.process(cfg.as_process(), big.as_process(), None), Ok(i64::MIN));
    let mut none = MockArgList::new();
    assert_eq!(udf.process(cfg.as_process(), none.as_process(), None), Ok(0));
}

#[test]
fn is_const_reports_constness() {
    let mut cfg = MockUdfCfg::new();
    let mut constant = ints(&[Some(3)]);
    let mut udf = IsConst::init(cfg.as_init(), constant.as_init()).unwrap();
    let mut proc_args = MockArgList::new();
    assert_eq!(udf.process(cfg.as_process(), proc_args.as_process(), None), Ok("const"));

    let mut column = ints(&[None]);
    let mut udf = IsConst::init(cfg.as_init(), column.as_init()).unwrap();
    assert_eq!(udf.process(cfg.as_process(), proc_args.as_process(), None), Ok("not const"));

    let mut two = ints(&[None, None]);
    assert_eq!(
        IsConst::init(cfg.as_init(), two.as_init()).unwrap_err(),
        "IS_CONST only accepts one argument"
    );
}

#[test]
fn sequence_counts_rows() {
    // select id, sql_sequence(10) from t1  ->  11, 12, ..., 16
    let mut cfg = MockUdfCfg::new();
    let mut init_args = ints(&[Some(10)]);
    let list = init_args.as_init();
    let mut udf = SqlSequence::init(cfg.as_init(), list).unwrap();
    assert_eq!(list.get(0).unwrap().get_type_coercion(), SqlType::Int);
    assert!(!*cfg.is_const());
    let mut row = ints(&[Some(10)]);
    for expected in 11..=16 {
        assert_eq!(udf.process(cfg.as_process(), row.as_process(), None), Ok(expected));
    }

    // select id, sql_sequence(-1) from t1  ->  0, 1, ..., 5
    let mut udf = SqlSequence::init(cfg.as_init(), ints(&[Some(-1)]).as_init()).unwrap();
    let mut row = ints(&[Some(-1)]);
    for expected in 0..=5 {
        assert_eq!(udf.process(cfg.as_process(), row.as_process(), None), Ok(expected));
    }

    // select sql_sequence()  ->  1
    let mut udf = SqlSequence::init(cfg.as_init(), MockArgList::new().as_init()).unwrap();
    assert_eq!(udf.process(cfg.as_process(), MockArgList::new().as_process(), None), Ok(1));
}

#[test]
fn sequence_errors() {
    let mut cfg = MockUdfCfg::new();
    assert_eq!(
        SqlSequence::init(cfg.as_init(), ints(&[None, None]).as_init()).unwrap_err(),
        "This function takes 0 or 1 arguments; got 2"
    );
    let mut udf = SqlSequence::init(cfg.as_init(), ints(&[None]).as_init()).unwrap();
    assert!(udf.process(cfg.as_process(), ints(&[None]).as_process(), None).is_err());
}

#[test]
fn decimal_text() {
    assert_eq!(decimal_string(0), "0");
    assert_eq!(decimal_string(7), "7");
    assert_eq!(decimal_string(10), "10");
    assert_eq!(decimal_string(1234), "1234");
    assert_eq!(decimal_string(usize::MAX), usize::MAX.to_string());
}

fn arg_list(args: Vec<MockArg>) -> MockArgList {
    let mut l = MockArgList::new();
    for a in args {
        l.push_arg(a);
    }
    l
}

#[test]
fn avg_cost_accepts_int_and_real() {
    let mut cfg = MockUdfCfg::new();
    let mut args = arg_list(vec![
        MockArg::new(MockArgData::from_int(3), "qty", false),
        MockArg::new(MockArgData::from_real_bits(2.5f64.to_bits()), "price", false),
    ]);
    assert_eq!(avg_cost_check_args(cfg.as_init(), args.as_init()), Ok(()));
    assert!(*cfg.maybe_null());
    assert_eq!(*cfg.decimals(), 10);
    assert_eq!(*cfg.max_len(), 20);
}

#[test]
fn avg_cost_rejects_bad_arguments() {
    let mut cfg = MockUdfCfg::new();
    let mut one = arg_list(vec![MockArg::new(MockArgData::from_int(3), "qty", false)]);
    assert_eq!(
        avg_cost_check_args(cfg.as_init(), one.as_init()).unwrap_err(),
        "AVGCOST() requires two arguments"
    );
    let mut first = arg_list(vec![
        MockArg::new(MockArgData::from_str("x"), "qty", false),
        MockArg::new(MockArgData::from_real_bits(1.0f64.to_bits()), "price", false),
    ]);
    assert_eq!(
        avg_cost_check_args(cfg.as_init(), first.as_init()).unwrap_err(),
        "First argument must be an integer; received string qty"
    );
    let mut second = arg_list(vec![
        MockArg::new(MockArgData::from_int(1), "qty", false),
        MockArg::new(MockArgData::from_decimal("1.5"), "price", false),
    ]);
    assert_eq!(
        avg_cost_check_args(cfg.as_init(), second.as_init()).unwrap_err(),
        "Second argument must be a real; received decimal price"
    );
    // a refused call leaves the configuration alone
    assert!(!*cfg.maybe_null());
    assert_eq!(*cfg.decimals(), 0);
}

#[test]
fn lookup6_checks_arguments() {
    let mut cfg = MockUdfCfg::new();
    let mut none = MockArgList::new();
    assert_eq!(
        lookup6_check_args(cfg.as_init(), none.as_init()).unwrap_err(),
        "Expected 1 argument; got 0"
    );
    let mut int = ints(&[Some(1)]);
    assert_eq!(
        lookup6_check_args(cfg.as_init(), int.as_init()).unwrap_err(),
        "Expected string argument; got int"
    );
    let mut host = arg_list(vec![MockArg::new(MockArgData::from_str("localhost"), "h", false)]);
    assert_eq!(lookup6_check_args(cfg.as_init(), host.as_init()), Ok(()));
    assert_eq!(*cfg.max_len(), 39);
    assert!(*cfg.maybe_null());
}

#[test]
fn lookup6_prefers_ipv6() {
    // 127.0.0.1 and ::1
    let v4 = ResolvedAddr::V4(0x7f00_0001);
    let v6 = ResolvedAddr::V6(1);
    assert_eq!(choose_ipv6(&[v4, v6]), Some(1));
    // ::ffff:127.0.0.1
    assert_eq!(choose_ipv6(&[v4]), Some(0xffff_7f00_0001));
    assert_eq!(choose_ipv6(&[ResolvedAddr::V4(0x0a00_0001), v4]), Some(0xffff_0a00_0001));
    assert_eq!(choose_ipv6(&[]), None);
}

#[test]
fn avg_cost_row_reads_quantity_and_price() {
    let mut row = arg_list(vec![
        MockArg::new(MockArgData::from_int(3), "qty", false),
        MockArg::new(MockArgData::from_real_bits(2.5f64.to_bits()), "price", false),
    ]);
    assert_eq!(avg_cost_row(row.as_process()), Some((3, 2.5f64.to_bits())));
    let mut no_qty = arg_list(vec![
        MockArg::new(MockArgData::from_opt_int(None), "qty", true),
        MockArg::new(MockArgData::from_real_bits(2.5f64.to_bits()), "price", false),
    ]);
    assert_eq!(avg_cost_row(no_qty.as_process()), None);
    let mut no_price = arg_list(vec![
        MockArg::new(MockArgData::from_int(3), "qty", false),
        MockArg::new(MockArgData::from_opt_real_bits(None), "price", true),
    ]);
    assert_eq!(avg_cost_row(no_price.as_process()), None);
}
