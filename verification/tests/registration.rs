use udf::registration::{
    check_aggregate_attributes, check_aliases, check_names, name_message_fits,
    verify_aggregate_attributes, RegisteredAggregateUdf, RegisteredBasicUdf, TOO_LONG_MSG,
};
use udf::ret_types::{find_ret_type, impls_path, make_type_list, FnSigType, ImplType};

#[test]
fn names_agree() {
    assert_eq!(check_names("my_udf", "my_udf", true, false), Ok(()));
}

#[test]
fn names_differ_message() {
    assert_eq!(
        check_names("basic_name", "agg_name", true, false),
        Err("`#[register]` on `BasicUdf` and `AggregateUdf` must have the same `name` argument; \
             got `basic_name` (default from struct name) and `agg_name`"
            .to_owned())
    );
}

#[test]
fn aliases_message() {
    assert_eq!(check_aliases(&["a", "b"], &["a", "b"]), Ok(()));
    assert_eq!(
        check_aliases(&["a", "b"], &["c"]),
        Err("`#[register]` on `BasicUdf` and `AggregateUdf` must have the same `alias` arguments; \
             got [`a`, `b`] and [`c`]"
            .to_owned())
    );
    assert_eq!(
        check_aliases(&[], &["x"]),
        Err("`#[register]` on `BasicUdf` and `AggregateUdf` must have the same `alias` arguments; \
             got [] and [`x`]"
            .to_owned())
    );
}

#[test]
fn long_name_message_fits_whole() {
    // 340 bytes of name: the message is 437 bytes and fits the 512-byte buffer
    let long = "a".repeat(340);
    let msg = check_names(&long, "b", false, false).unwrap_err();
    assert_eq!(
        msg,
        format!(
            "`#[register]` on `BasicUdf` and `AggregateUdf` must have the same `name` argument; \
             got `{long}` and `b`"
        )
    );
    assert_eq!(msg.len(), 437);
}

#[test]
fn long_alias_message_fits_whole() {
    let x = "x".repeat(150);
    let y = "y".repeat(150);
    let msg = check_aliases(&[x.as_str()], &[y.as_str()]).unwrap_err();
    assert_eq!(
        msg,
        format!(
            "`#[register]` on `BasicUdf` and `AggregateUdf` must have the same `alias` arguments; \
             got [`{x}`] and [`{y}`]"
        )
    );
    assert_eq!(msg.len(), 402);
}

#[test]
fn name_overflowing_buffer_is_cut_with_dots() {
    // the name starts at byte 88; 426 bytes overflow the 424 left by two:
    // all but its last four bytes are written, then dots fill the buffer
    let long = "n".repeat(426);
    let msg = check_names(&long, "b", false, false).unwrap_err();
    assert_eq!(msg.len(), 512);
    assert_eq!(
        msg,
        format!(
            "`#[register]` on `BasicUdf` and `AggregateUdf` must have the same `name` argument; \
             got `{}..",
            "n".repeat(422)
        )
    );
}

struct Both;
impl RegisteredBasicUdf for Both {
    const NAME: &'static str = "both";
    const ALIASES: &'static [&'static str] = &["b1"];
    const DEFAULT_NAME_USED: bool = false;
}
impl RegisteredAggregateUdf for Both {
    const NAME: &'static str = "both";
    const ALIASES: &'static [&'static str] = &["b2"];
    const DEFAULT_NAME_USED: bool = false;
}

#[test]
fn verify_attributes_reports_aliases() {
    let e = verify_aggregate_attributes::<Both>().unwrap_err();
    assert!(e.contains("`alias` arguments; got [`b1`] and [`b2`]"));
}

#[test]
fn return_type_table() {
    let list = make_type_list();
    assert_eq!(list.len(), 18);
    let i = find_ret_type(&list, "Option < i64 >").unwrap();
    assert_eq!(list[i].type_, "Option<i64>");
    assert!(list[i].is_optional);
    assert_eq!(list[i].fn_sig, FnSigType::Int);
    let j = find_ret_type(&list, "& 'a str").unwrap();
    assert_eq!(list[j].fn_sig, FnSigType::BytesRef);
    assert!(!list[j].is_optional);
    let k = find_ret_type(&list, "String").unwrap();
    assert_eq!(list[k].fn_sig, FnSigType::Bytes);
    assert!(find_ret_type(&list, "u32").is_none());
}

#[test]
fn trait_path_forms() {
    assert!(impls_path(&["BasicUdf"], ImplType::Basic));
    assert!(impls_path(&["udf", "BasicUdf"], ImplType::Basic));
    assert!(impls_path(&["udf", "traits", "BasicUdf"], ImplType::Basic));
    assert!(!impls_path(&["udf", "BasicUdf"], ImplType::Aggregate));
    assert!(impls_path(&["AggregateUdf"], ImplType::Aggregate));
    assert!(!impls_path(&["Add"], ImplType::Basic));
    assert!(!impls_path(&["other", "BasicUdf"], ImplType::Basic));
}

struct LongNames;
impl RegisteredBasicUdf for LongNames {
    const NAME: &'static str = "aaaaaaaaaaaaaaaaaaaaaaaaaaaaaaaaaaaaaaaaaaaaaaaaaaaaaaaaaaaaaaaaaaaaaaaaaaaaaaaaaaaaaaaaaaaaaaaaaaaaaaaaaaaaaaaaaaaaaaaaaaaaaaaaaaaaaaaaaaaaaaaaaaaaaaaaaaaaaaaaaaaaaaaaaaaaaaaaaaaaaaaaaaaaaaaaaaaaaaaaaaaaaaaaaaaaaaaaaaaaaaaaaaaaaaaaaaaaaaaaaaaaaaaaaaaaaaaaaaaaaaaaaaaaaaaaaaaaaaaaaaaaaaaaaaaaaaaaaaaaaaaaaaaaaaaaaaaaaaaaaaaaaaaaaaaaaaaaaaaaaaaaaaaaaaaaaaaaaaaaaaaaaaaaaaaaaaaaaaaaaaaaaaaaaaaaaaaaaaaaaaaaaaaaaaaaaaaaaaaaaaaaaaaaaaaaaaaaaaaaaaaaaa";
    const ALIASES: &'static [&'static str] = &[];
    const DEFAULT_NAME_USED: bool = false;
}
impl RegisteredAggregateUdf for LongNames {
    const NAME: &'static str = "b";
    const ALIASES: &'static [&'static str] = &[];
    const DEFAULT_NAME_USED: bool = false;
}

struct Same;
impl RegisteredBasicUdf for Same {
    const NAME: &'static str = "same";
    const ALIASES: &'static [&'static str] = &["s"];
    const DEFAULT_NAME_USED: bool = true;
}
impl RegisteredAggregateUdf for Same {
    const NAME: &'static str = "same";
    const ALIASES: &'static [&'static str] = &["s"];
    const DEFAULT_NAME_USED: bool = true;
}

#[test]
fn checked_verification_reports_overlong_names() {
    assert!(!name_message_fits(LongNames::NAME_BASIC, "b", false, false));
    assert_eq!(check_aggregate_attributes::<LongNames>(), Err(TOO_LONG_MSG.to_owned()));
    assert_eq!(check_aggregate_attributes::<Same>(), Ok(()));
    assert!(check_aggregate_attributes::<Both>().is_err());
    assert!(name_message_fits("x", "y", true, true));
}

impl LongNames {
    const NAME_BASIC: &'static str = <LongNames as RegisteredBasicUdf>::NAME;
}
