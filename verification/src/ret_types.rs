//! The return types a registered UDF may declare, and how each is returned
//! to the server.

use vstd::prelude::*;
use vstd::string::StringSliceAdditionalSpecFns;

use crate::const_helpers::{const_slice_eq, str_lists_equal};

verus! {

/// Which trait a registered `impl` block implements.
#[derive(Clone, Copy, Debug, PartialEq, Eq, Structural)]
pub enum ImplType {
    /// `BasicUdf`
    Basic,
    /// `AggregateUdf`
    Aggregate,
}

/// How a result of some type is returned to the server.
#[derive(Clone, Copy, Debug, PartialEq, Eq, Structural)]
pub enum FnSigType {
    /// An owned byte buffer, copied to the result buffer
    Bytes,
    /// An integer
    Int,
    /// A real
    Float,
    /// A borrowed byte buffer, copied when it fits, otherwise returned itself
    BytesRef,
}

/// Information about an allowed return type.
#[derive(Clone, Debug)]
pub struct RetType {
    /// The type, as written in source
    pub type_: &'static str,
    /// Whether the type is an `Option`
    pub is_optional: bool,
    /// How a value of the type is returned
    pub fn_sig: FnSigType,
}

impl RetType {
    fn new(type_: &'static str, is_optional: bool, fn_sig: FnSigType) -> (r: Self)
        ensures
            r.type_ == type_,
            r.is_optional == is_optional,
            r.fn_sig == fn_sig,
    {
        Self { type_, is_optional, fn_sig }
    }
}

/// The allowed return types, in order: (type as written, optional, how it is
/// returned).
pub open spec fn spec_type_list() -> Seq<(&'static str, bool, FnSigType)> {
    seq![
        ("i64", false, FnSigType::Int),
        ("Option<i64>", true, FnSigType::Int),
        ("f64", false, FnSigType::Float),
        ("Option<f64>", true, FnSigType::Float),
        ("&'a [u8]", false, FnSigType::BytesRef),
        ("Option<&'a [u8]>", true, FnSigType::BytesRef),
        ("&str", false, FnSigType::BytesRef),
        ("Option<&str>", true, FnSigType::BytesRef),
        ("&'a str", false, FnSigType::BytesRef),
        ("Option<&'a str>", true, FnSigType::BytesRef),
        ("&'static str", false, FnSigType::BytesRef),
        ("Option<&'static str>", true, FnSigType::BytesRef),
        ("&'a String", false, FnSigType::BytesRef),
        ("Option<&'a String>", true, FnSigType::BytesRef),
        ("Vec<u8>", false, FnSigType::Bytes),
        ("Option<Vec<u8>>", true, FnSigType::Bytes),
        ("String", false, FnSigType::Bytes),
        ("Option<String>", true, FnSigType::Bytes),
    ]
}

/// Whether a list of return types is exactly the allowed list.
pub open spec fn is_type_list(v: Seq<RetType>) -> bool {
    &&& v.len() == spec_type_list().len()
    &&& forall|i: int|
        0 <= i < v.len() ==> (#[trigger] v[i]).type_ == spec_type_list()[i].0 && v[i].is_optional
            == spec_type_list()[i].1 && v[i].fn_sig == spec_type_list()[i].2
}

/// Brute force list of acceptable return types.
///
/// Owned `String` and `Vec<u8>` results are copied to the server's buffer;
/// references are copied when they fit and returned themselves otherwise.
pub fn make_type_list() -> (r: Vec<RetType>)
    ensures
        is_type_list(r@),
{
    let mut v: Vec<RetType> = Vec::new();
    v.push(RetType::new("i64", false, FnSigType::Int));
    v.push(RetType::new("Option<i64>", true, FnSigType::Int));
    v.push(RetType::new("f64", false, FnSigType::Float));
    v.push(RetType::new("Option<f64>", true, FnSigType::Float));
    v.push(RetType::new("&'a [u8]", false, FnSigType::BytesRef));
    v.push(RetType::new("Option<&'a [u8]>", true, FnSigType::BytesRef));
    v.push(RetType::new("&str", false, FnSigType::BytesRef));
    v.push(RetType::new("Option<&str>", true, FnSigType::BytesRef));
    v.push(RetType::new("&'a str", false, FnSigType::BytesRef));
    v.push(RetType::new("Option<&'a str>", true, FnSigType::BytesRef));
    v.push(RetType::new("&'static str", false, FnSigType::BytesRef));
    v.push(RetType::new("Option<&'static str>", true, FnSigType::BytesRef));
    v.push(RetType::new("&'a String", false, FnSigType::BytesRef));
    v.push(RetType::new("Option<&'a String>", true, FnSigType::BytesRef));
    v.push(RetType::new("Vec<u8>", false, FnSigType::Bytes));
    v.push(RetType::new("Option<Vec<u8>>", true, FnSigType::Bytes));
    v.push(RetType::new("String", false, FnSigType::Bytes));
    v.push(RetType::new("Option<String>", true, FnSigType::Bytes));
    assert(is_type_list(v@));
    v
}

/// Whether a byte is ASCII whitespace (space, tab, line feed, form feed,
/// carriage return).
pub open spec fn is_ws(b: u8) -> bool {
    b == 32 || b == 9 || b == 10 || b == 12 || b == 13
}

/// The bytes of a text without its whitespace.
pub open spec fn strip_ws(s: Seq<u8>) -> Seq<u8>
    decreases s.len(),
{
    if s.len() == 0 {
        Seq::empty()
    } else if is_ws(s.last()) {
        strip_ws(s.drop_last())
    } else {
        strip_ws(s.drop_last()).push(s.last())
    }
}

/// The bytes of `s` without whitespace.
fn stripped_bytes(s: &str) -> (r: Vec<u8>)
    ensures
        r@ == strip_ws(s.spec_bytes()),
{
    let b = s.as_bytes();
    let mut r: Vec<u8> = Vec::new();
    let mut i: usize = 0;
    while i < b.len()
        invariant
            b@ == s.spec_bytes(),
            0 <= i <= b@.len(),
            r@ == strip_ws(b@.take(i as int)),
        decreases b@.len() - i,
    {
        let c = b[i];
        proof {
            assert(b@.take(i + 1).drop_last() =~= b@.take(i as int));
        }
        if !(c == 32 || c == 9 || c == 10 || c == 12 || c == 13) {
            r.push(c);
        }
        i += 1;
    }
    assert(b@.take(b@.len() as int) =~= b@);
    r
}

/// Whether two types are the same once whitespace is ignored.
pub open spec fn same_type_text(a: &str, b: &str) -> bool {
    strip_ws(a.spec_bytes()) == strip_ws(b.spec_bytes())
}

/// Compare two type texts, ignoring whitespace.
pub fn type_text_eq(a: &str, b: &str) -> (r: bool)
    ensures
        r == same_type_text(a, b),
{
    let x = stripped_bytes(a);
    let y = stripped_bytes(b);
    if x.len() != y.len() {
        return false;
    }
    let mut i: usize = 0;
    while i < x.len()
        invariant
            x@ == strip_ws(a.spec_bytes()),
            y@ == strip_ws(b.spec_bytes()),
            x@.len() == y@.len(),
            0 <= i <= x@.len(),
            forall|j: int| 0 <= j < i ==> x@[j] == y@[j],
        decreases x@.len() - i,
    {
        if x[i] != y[i] {
            return false;
        }
        i += 1;
    }
    assert(x@ =~= y@);
    true
}

/// Find the allowed return type matching a type's text (whitespace is
/// ignored): the first entry of the list that matches, if any.
pub fn find_ret_type(list: &Vec<RetType>, ty: &str) -> (r: Option<usize>)
    ensures
        match r {
            Some(i) => i < list@.len() && same_type_text(list@[i as int].type_, ty) && forall|j: int|
                0 <= j < i ==> !same_type_text(#[trigger] list@[j].type_, ty),
            None => forall|j: int| 0 <= j < list@.len() ==> !same_type_text(#[trigger] list@[j].type_, ty),
        },
{
    let mut i: usize = 0;
    while i < list.len()
        invariant
            0 <= i <= list@.len(),
            forall|j: int| 0 <= j < i ==> !same_type_text(#[trigger] list@[j].type_, ty),
        decreases list@.len() - i,
    {
        if type_text_eq(list[i].type_, ty) {
            return Some(i);
        }
        i += 1;
    }
    None
}

/// The paths by which each trait may be named in a registered `impl`.
pub open spec fn trait_paths(expected: ImplType) -> Seq<Seq<Seq<char>>> {
    match expected {
        ImplType::Basic => seq![
            seq!["udf"@, "traits"@, "BasicUdf"@],
            seq!["udf"@, "BasicUdf"@],
            seq!["BasicUdf"@],
        ],
        ImplType::Aggregate => seq![
            seq!["udf"@, "traits"@, "AggregateUdf"@],
            seq!["udf"@, "AggregateUdf"@],
            seq!["AggregateUdf"@],
        ],
    }
}

/// The texts of a list of path segments.
pub open spec fn segment_texts(segments: Seq<&str>) -> Seq<Seq<char>> {
    segments.map_values(|s: &str| s@)
}

/// Verify that the implemented trait's path (its segments, without generic
/// arguments) names the expected trait in one of its accepted forms.
pub fn impls_path(segments: &[&str], expected: ImplType) -> (r: bool)
    ensures
        r == trait_paths(expected).contains(segment_texts(segments@)),
{
    let name = match expected {
        ImplType::Basic => "BasicUdf",
        ImplType::Aggregate => "AggregateUdf",
    };
    let mut p1: Vec<&str> = Vec::new();
    p1.push("udf");
    p1.push("traits");
    p1.push(name);
    let mut p2: Vec<&str> = Vec::new();
    p2.push("udf");
    p2.push(name);
    let mut p3: Vec<&str> = Vec::new();
    p3.push(name);
    let r = const_slice_eq(p1.as_slice(), segments) || const_slice_eq(p2.as_slice(), segments)
        || const_slice_eq(p3.as_slice(), segments);
    proof {
        let t = segment_texts(segments@);
        let paths = trait_paths(expected);
        assert(paths.len() == 3);
        assert(segment_texts(p1@) =~= paths[0]);
        assert(segment_texts(p2@) =~= paths[1]);
        assert(segment_texts(p3@) =~= paths[2]);
        assert forall|q: Seq<&str>| #[trigger] str_lists_equal(q, segments@) <==> segment_texts(q)
            =~= t by {
            if segment_texts(q) =~= t {
                assert forall|i: int| 0 <= i < q.len() implies q[i]@ == segments@[i]@ by {
                    assert(segment_texts(q)[i] == t[i]);
                }
            }
        }
        if paths.contains(t) {
            let k = choose|k: int| 0 <= k < paths.len() && paths[k] == t;
            assert(k == 0 || k == 1 || k == 2);
        }
    }
    r
}

} // verus!
