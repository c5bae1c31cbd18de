//! Example UDFs built on the library: `sum_int`, `is_const` and
//! `sql_sequence`, and the argument checks and address choice of `avgcost`
//! and `lookup6`.

use vstd::prelude::*;
use vstd::string::StringExecFns;

use crate::arg::{value_present, value_type, ArgList, ArgValue};
use crate::config::{CfgValues, UdfCfg};
use crate::sql_types::{spec_display_name, SqlResult, SqlType};
use crate::traits::{BasicUdf, ErrorCode, Init, Process, ProcessError};

verus! {

/// The values of all arguments of a list, in order.
pub open spec fn arg_values<S: crate::traits::UdfState>(args: ArgList<S>) -> Seq<ArgValue> {
    Seq::new(args.spec_len(), |i: int| args.value_at(i))
}

/// The wrapping (two's complement) sum of the integer values among `vals`;
/// other values and `NULL`s are skipped.
pub open spec fn int_arg_sum(vals: Seq<ArgValue>) -> i64
    decreases vals.len(),
{
    if vals.len() == 0 {
        0
    } else {
        let prev = int_arg_sum(vals.drop_last());
        match vals.last() {
            ArgValue::Int(Some(v)) => vstd::wrapping::i64_specs::wrapping_add(prev, v),
            _ => prev,
        }
    }
}

/// The character of a decimal digit.
pub open spec fn digit_char(d: nat) -> char {
    ((48 + d) as u32) as char
}

/// The decimal text of a natural number.
pub open spec fn decimal(n: nat) -> Seq<char>
    decreases n,
{
    if n < 10 {
        seq![digit_char(n)]
    } else {
        decimal(n / 10).push(digit_char(n % 10))
    }
}

fn digit_str(d: usize) -> (s: &'static str)
    requires
        d < 10,
    ensures
        s@ == seq![digit_char(d as nat)],
{
    proof {
        reveal_strlit("0");
        reveal_strlit("1");
        reveal_strlit("2");
        reveal_strlit("3");
        reveal_strlit("4");
        reveal_strlit("5");
        reveal_strlit("6");
        reveal_strlit("7");
        reveal_strlit("8");
        reveal_strlit("9");
    }
    let s = if d == 0 {
        "0"
    } else if d == 1 {
        "1"
    } else if d == 2 {
        "2"
    } else if d == 3 {
        "3"
    } else if d == 4 {
        "4"
    } else if d == 5 {
        "5"
    } else if d == 6 {
        "6"
    } else if d == 7 {
        "7"
    } else if d == 8 {
        "8"
    } else {
        "9"
    };
    assert(s@ =~= seq![digit_char(d as nat)]);
    s
}

/// The decimal text of `n`.
pub fn decimal_string(n: usize) -> (s: String)
    ensures
        s@ == decimal(n as nat),
    decreases n,
{
    if n < 10 {
        String::from_str(digit_str(n))
    } else {
        let mut s = decimal_string(n / 10);
        s.append(digit_str(n % 10));
        s
    }
}

/// Adds all arguments as integers, after asking the server to coerce each
/// one to an integer. The sum wraps around on overflow.
#[derive(Debug, PartialEq, Eq, Default)]
pub struct SumInt {

}

impl BasicUdf for SumInt {
    type Returns<'a> = i64;

    /// Coerce each argument to an integer; the result only depends on the
    /// arguments.
    fn init(cfg: &mut UdfCfg<Init>, args: &mut ArgList<Init>) -> (r: Result<Self, String>)
        ensures
            r is Ok,
            final(cfg)@ == (CfgValues { is_const: true, ..old(cfg)@ }),
            final(args).spec_len() == old(args).spec_len(),
            forall|i: int|
                0 <= i < old(args).spec_len() ==> #[trigger] final(args).arg_type_at(i)
                    == crate::arg::coerced_type(old(args).arg_type_at(i), SqlType::Int),
    {
        let n = args.len();
        let mut i: usize = 0;
        let ghost start = *args;
        while i < n
            invariant
                n == start.spec_len(),
                args.spec_len() == n,
                0 <= i <= n,
                forall|j: int|
                    0 <= j < i ==> #[trigger] args.arg_type_at(j) == crate::arg::coerced_type(
                        start.arg_type_at(j),
                        SqlType::Int,
                    ),
                forall|j: int| i <= j < n ==> #[trigger] args.arg_type_at(j) == start.arg_type_at(j),
            decreases n - i,
        {
            let ghost prev = *args;
            args.set_type_coercion(i, SqlType::Int);
            i += 1;
        }
        cfg.set_is_const(true);
        Ok(SumInt {  })
    }

    /// The wrapping sum of all integer arguments (`NULL`s and other values
    /// are skipped).
    fn process<'a>(
        &'a mut self,
        cfg: &mut UdfCfg<Process>,
        args: &ArgList<Process>,
        error: Option<ErrorCode>,
    ) -> (r: Result<i64, ProcessError>)
        ensures
            r == Ok::<i64, ProcessError>(int_arg_sum(arg_values(*args))),
    {
        let mut res: i64 = 0;
        let mut i: usize = 0;
        while i < args.len()
            invariant
                0 <= i <= args.spec_len(),
                res == int_arg_sum(arg_values(*args).take(i as int)),
            decreases args.spec_len() - i,
        {
            let a = args.get(i).unwrap();
            let v = a.value();
            proof {
                let vals = arg_values(*args);
                assert(vals.take(i + 1).drop_last() =~= vals.take(i as int));
                assert(vals.take(i + 1).last() == args.value_at(i as int));
            }
            match v.as_int() {
                Some(x) => {
                    res = res.wrapping_add(x);
                },
                None => {},
            }
            i += 1;
        }
        assert(arg_values(*args).take(args.spec_len() as int) =~= arg_values(*args));
        Ok(res)
    }
}

/// Reports whether its single argument was constant at initialization.
#[derive(Debug)]
pub struct IsConst {
    is_const: bool,
}

impl IsConst {
    /// Whether the argument was constant.
    pub closed spec fn spec_is_const(&self) -> bool {
        self.is_const
    }
}

impl BasicUdf for IsConst {
    type Returns<'a> = &'static str;

    /// Accept exactly one argument and remember whether it is constant.
    fn init(cfg: &mut UdfCfg<Init>, args: &mut ArgList<Init>) -> (r: Result<Self, String>)
        ensures
            old(args).spec_len() != 1 ==> (r matches Err(e) && e@ == "IS_CONST only accepts one argument"@),
            old(args).spec_len() == 1 ==> (r matches Ok(u) && u.spec_is_const() == value_present(
                old(args).value_at(0),
            )),
            *final(args) == *old(args),
            final(cfg)@ == old(cfg)@,
    {
        if args.len() != 1 {
            return Err("IS_CONST only accepts one argument".to_owned());
        }
        let a = args.get(0).unwrap();
        Ok(Self { is_const: a.is_const() })
    }

    /// `"const"` or `"not const"`.
    fn process<'a>(
        &'a mut self,
        cfg: &mut UdfCfg<Process>,
        args: &ArgList<Process>,
        error: Option<ErrorCode>,
    ) -> (r: Result<&'static str, ProcessError>)
        ensures
            r == Ok::<&'static str, ProcessError>(
                if old(self).spec_is_const() {
                    "const"
                } else {
                    "not const"
                },
            ),
    {
        Ok(
            if self.is_const {
                "const"
            } else {
                "not const"
            },
        )
    }
}

/// Counts rows: returns 1, 2, 3, ... plus an optional integer argument.
#[derive(Debug)]
pub struct SqlSequence {
    last_val: i64,
}

impl SqlSequence {
    /// The last number counted.
    pub closed spec fn spec_last_val(&self) -> i64 {
        self.last_val
    }
}

/// Start of the message for too many arguments.
pub const BAD_ARGUMENTS_MSG: &'static str = "This function takes 0 or 1 arguments; got ";

impl BasicUdf for SqlSequence {
    type Returns<'a> = i64;

    /// Accept zero or one argument, coercing it to an integer; the result
    /// differs for each call.
    fn init(cfg: &mut UdfCfg<Init>, args: &mut ArgList<Init>) -> (r: Result<Self, String>)
        ensures
            old(args).spec_len() > 1 ==> (r matches Err(e) && e@ == BAD_ARGUMENTS_MSG@ + decimal(
                old(args).spec_len(),
            )),
            r is Err ==> final(cfg)@ == old(cfg)@ && *final(args) == *old(args),
            old(args).spec_len() == 0 ==> *final(args) == *old(args),
            old(args).spec_len() <= 1 ==> (r matches Ok(u) && u.spec_last_val() == 0
                && final(cfg)@ == (CfgValues { is_const: false, ..old(cfg)@ })),
            old(args).spec_len() == 1 ==> final(args).arg_types() == old(args).arg_types().update(
                0,
                crate::arg::coerced_type(old(args).arg_type_at(0), SqlType::Int),
            ),
    {
        if args.len() > 1 {
            let mut msg = String::from_str(BAD_ARGUMENTS_MSG);
            let n = decimal_string(args.len());
            msg.append(n.as_str());
            return Err(msg);
        }
        if args.len() == 1 {
            args.set_type_coercion(0, SqlType::Int);
        }
        cfg.set_is_const(false);
        Ok(Self { last_val: 0 })
    }

    /// Count this row and add the argument (or 0 when there is none). A
    /// `NULL` or non-integer argument, or a count that would overflow, gives
    /// no result.
    fn process<'a>(
        &'a mut self,
        cfg: &mut UdfCfg<Process>,
        args: &ArgList<Process>,
        error: Option<ErrorCode>,
    ) -> (r: Result<i64, ProcessError>)
        ensures
            ({
                let base: Option<int> = if args.spec_len() == 0 {
                    Some(0int)
                } else {
                    match args.value_at(0) {
                        ArgValue::Int(Some(v)) => Some(v as int),
                        _ => None,
                    }
                };
                let next = old(self).spec_last_val() + 1;
                match base {
                    Some(b) => if next <= i64::MAX && i64::MIN <= next + b <= i64::MAX {
                        r == Ok::<i64, ProcessError>((next + b) as i64) && final(self).spec_last_val()
                            == next
                    } else {
                        r is Err
                    },
                    None => r is Err,
                }
            }),
    {
        let arg_val = match args.get(0) {
            Some(v) => match v.value().as_int() {
                Some(x) => x,
                None => {
                    return Err(ProcessError);
                },
            },
            None => 0,
        };
        if self.last_val == i64::MAX {
            return Err(ProcessError);
        }
        let next = self.last_val + 1;
        match next.checked_add(arg_val) {
            Some(total) => {
                self.last_val = next;
                Ok(total)
            },
            None => Err(ProcessError),
        }
    }
}

/// A message naming the type and the text of an argument that was not
/// accepted: `prefix`, the type's name, a space and the argument's text.
pub open spec fn received_text(prefix: Seq<char>, v: ArgValue, attribute: Seq<char>) -> Seq<char> {
    prefix + spec_display_name(value_type(v))@ + " "@ + attribute
}

/// Message of `avgcost` for a wrong number of arguments.
pub const AVGCOST_ARG_COUNT_MSG: &'static str = "AVGCOST() requires two arguments";

/// Start of the message of `avgcost` for a first argument that is no integer.
pub const AVGCOST_FIRST_ARG_MSG: &'static str = "First argument must be an integer; received ";

/// Start of the message of `avgcost` for a second argument that is no real.
pub const AVGCOST_SECOND_ARG_MSG: &'static str = "Second argument must be a real; received ";

/// The initialization of `avgcost` (average cost of quantities at prices):
/// exactly two arguments, an integer then a real; the result may be `NULL`
/// and has 10 decimals and at most 20 characters.
pub fn avg_cost_check_args(cfg: &mut UdfCfg<Init>, args: &ArgList<Init>) -> (r: Result<(), String>)
    ensures
        args.spec_len() != 2 ==> (r matches Err(e) && e@ == AVGCOST_ARG_COUNT_MSG@),
        args.spec_len() == 2 && !(args.value_at(0) is Int) ==> (r matches Err(e) && e@
            == received_text(AVGCOST_FIRST_ARG_MSG@, args.value_at(0), args.attribute_at(0))),
        args.spec_len() == 2 && args.value_at(0) is Int && !(args.value_at(1) is Real) ==> (r matches Err(
            e,
        ) && e@ == received_text(AVGCOST_SECOND_ARG_MSG@, args.value_at(1), args.attribute_at(1))),
        args.spec_len() == 2 && args.value_at(0) is Int && args.value_at(1) is Real ==> r is Ok
            && final(cfg)@ == (CfgValues { maybe_null: true, decimals: 10, max_len: 20, ..old(cfg)@ }),
        r is Err ==> final(cfg)@ == old(cfg)@,
{
    if args.len() != 2 {
        return Err(String::from_str(AVGCOST_ARG_COUNT_MSG));
    }
    let a0 = args.get(0).unwrap();
    let a1 = args.get(1).unwrap();
    let v0 = a0.value();
    let v1 = a1.value();
    if !v0.is_int() {
        let mut msg = String::from_str(AVGCOST_FIRST_ARG_MSG);
        msg.append(v0.display_name());
        msg.append(" ");
        msg.append(a0.attribute());
        return Err(msg);
    }
    if !v1.is_real() {
        let mut msg = String::from_str(AVGCOST_SECOND_ARG_MSG);
        msg.append(v1.display_name());
        msg.append(" ");
        msg.append(a1.attribute());
        return Err(msg);
    }
    cfg.set_maybe_null(true);
    cfg.set_decimals(10);
    cfg.set_max_len(20);
    Ok(())
}

/// The quantity and price (as the bits of its `f64`) a row adds to
/// `avgcost`: both present, else the row is skipped. The list must hold the
/// two arguments `avgcost` was initialized with.
pub fn avg_cost_row(args: &ArgList<Process>) -> (r: Option<(i64, u64)>)
    requires
        args.spec_len() >= 2,
    ensures
        r == (match (args.value_at(0), args.value_at(1)) {
            (ArgValue::Int(Some(q)), ArgValue::Real(Some(p))) => Some((q, p)),
            _ => None::<(i64, u64)>,
        }),
{
    let qty = match args.get(0).unwrap().value().as_int() {
        Some(q) => q,
        None => {
            return None;
        },
    };
    match args.get(1).unwrap().value().as_real() {
        Some(p) => Some((qty, p)),
        None => None,
    }
}

/// Start of the message of `lookup6` for a wrong number of arguments.
pub const LOOKUP_ARG_COUNT_MSG: &'static str = "Expected 1 argument; got ";

/// Start of the message of `lookup6` for an argument that is no string.
pub const LOOKUP_ARG_TYPE_MSG: &'static str = "Expected string argument; got ";

/// The initialization of `lookup6` (host name to IPv6 address): exactly one
/// string argument; the result may be `NULL` and has at most 39 characters,
/// the longest IPv6 address with colons.
pub fn lookup6_check_args(cfg: &mut UdfCfg<Init>, args: &ArgList<Init>) -> (r: Result<(), String>)
    ensures
        args.spec_len() != 1 ==> (r matches Err(e) && e@ == LOOKUP_ARG_COUNT_MSG@ + decimal(
            args.spec_len(),
        )),
        args.spec_len() == 1 && !(args.value_at(0) is String) ==> (r matches Err(e) && e@
            == LOOKUP_ARG_TYPE_MSG@ + spec_display_name(value_type(args.value_at(0)))@),
        args.spec_len() == 1 && args.value_at(0) is String ==> r is Ok && final(cfg)@ == (CfgValues {
            maybe_null: true,
            max_len: 39,
            ..old(cfg)@
        }),
        r is Err ==> final(cfg)@ == old(cfg)@,
{
    if args.len() != 1 {
        let mut msg = String::from_str(LOOKUP_ARG_COUNT_MSG);
        let n = decimal_string(args.len());
        msg.append(n.as_str());
        return Err(msg);
    }
    let v = args.get(0).unwrap().value();
    if !v.is_string() {
        let mut msg = String::from_str(LOOKUP_ARG_TYPE_MSG);
        msg.append(v.display_name());
        return Err(msg);
    }
    cfg.set_max_len(39);
    cfg.set_maybe_null(true);
    Ok(())
}

/// An address a host name resolved to, as the integer of its octets
/// (most significant first).
#[derive(Clone, Copy, Debug, PartialEq, Eq, Structural)]
pub enum ResolvedAddr {
    /// An IPv4 address
    V4(u32),
    /// An IPv6 address
    V6(u128),
}

/// The IPv6 form of an address: an IPv4 address `a.b.c.d` becomes the
/// IPv4-mapped address `::ffff:a.b.c.d`.
pub open spec fn ipv6_form(a: ResolvedAddr) -> u128 {
    match a {
        ResolvedAddr::V4(v) => (0xffff_0000_0000u128 + v) as u128,
        ResolvedAddr::V6(v) => v,
    }
}

/// The first IPv6 address of a list, if there is one.
pub open spec fn first_v6(addrs: Seq<ResolvedAddr>) -> Option<u128>
    decreases addrs.len(),
{
    if addrs.len() == 0 {
        None
    } else {
        match addrs[0] {
            ResolvedAddr::V6(v) => Some(v),
            ResolvedAddr::V4(_) => first_v6(addrs.drop_first()),
        }
    }
}

/// The address `lookup6` returns of a resolution: the first IPv6 address if
/// there is one, else the first address in its IPv6 form, else none.
pub open spec fn preferred_ipv6(addrs: Seq<ResolvedAddr>) -> Option<u128> {
    match first_v6(addrs) {
        Some(v) => Some(v),
        None => if addrs.len() > 0 {
            Some(ipv6_form(addrs[0]))
        } else {
            None
        },
    }
}

/// Choose the address `lookup6` returns among the resolutions of a host
/// name, as an IPv6 address.
pub fn choose_ipv6(addrs: &[ResolvedAddr]) -> (r: Option<u128>)
    ensures
        r == preferred_ipv6(addrs@),
{
    let mut i: usize = 0;
    assert(addrs@.skip(0) =~= addrs@);
    while i < addrs.len()
        invariant
            0 <= i <= addrs@.len(),
            first_v6(addrs@) == first_v6(addrs@.skip(i as int)),
        decreases addrs@.len() - i,
    {
        assert(addrs@.skip(i as int).drop_first() =~= addrs@.skip(i + 1));
        match addrs[i] {
            ResolvedAddr::V6(v) => {
                return Some(v);
            },
            ResolvedAddr::V4(_) => {},
        }
        i += 1;
    }
    assert(addrs@.skip(i as int).len() == 0);
    if addrs.len() == 0 {
        return None;
    }
    match addrs[0] {
        ResolvedAddr::V4(v) => Some(0xffff_0000_0000u128 + v as u128),
        ResolvedAddr::V6(v) => Some(v),
    }
}

} // verus!
