//! SQL arguments: the list the server passes to a UDF, and single arguments.
//!
//! The server passes arguments as parallel buffers (`UDF_ARGS`): a type code,
//! the data, a `maybe_null` flag and an attribute (the argument's text in the
//! query) for each argument. [`ArgList`] holds the same as plain values.

use std::marker::PhantomData;

use vstd::prelude::*;
use vstd::slice::slice_to_vec;
use vstd::string::StringSliceAdditionalSpecFns;

use crate::coerce::{
    get_coercion, get_current_type, get_desired_or_current, law_coercion_reads_back,
    law_plain_type_code, law_set_coercion_roundtrip, set_coercion, spec_coercion_is_set,
    spec_current_type, spec_desired_or_current, spec_set_coercion,
};
use crate::sql_types::{type_code, type_of_code, SqlResult, SqlType};
use crate::traits::{Init, UdfState};
use crate::udf_sys_calls::item_result_try_from;

verus! {

/// An argument's value as received from the server, owned.
///
/// A real value is held as the bits of its `f64`.
#[derive(Debug)]
pub enum ArgValue {
    /// A string (arbitrary bytes)
    String(Option<Vec<u8>>),
    /// A real, as the bits of an `f64`
    Real(Option<u64>),
    /// An integer
    Int(Option<i64>),
    /// A decimal, as its text
    Decimal(Option<String>),
}

/// Whether a borrowed value holds the same as an owned one.
pub open spec fn result_holds(r: SqlResult, v: ArgValue) -> bool {
    match (r, v) {
        (SqlResult::String(Some(b)), ArgValue::String(Some(bytes))) => b@ == bytes@,
        (SqlResult::String(None), ArgValue::String(None)) => true,
        (SqlResult::Real(x), ArgValue::Real(y)) => x == y,
        (SqlResult::Int(x), ArgValue::Int(y)) => x == y,
        (SqlResult::Decimal(Some(s)), ArgValue::Decimal(Some(t))) => s@ == t@,
        (SqlResult::Decimal(None), ArgValue::Decimal(None)) => true,
        _ => false,
    }
}

impl ArgValue {
    /// Copy a borrowed value into an owned one.
    pub fn from_result(r: &SqlResult) -> (v: ArgValue)
        ensures
            result_holds(*r, v),
    {
        match *r {
            SqlResult::String(Some(b)) => ArgValue::String(Some(slice_to_vec(b))),
            SqlResult::String(None) => ArgValue::String(None),
            SqlResult::Real(x) => ArgValue::Real(x),
            SqlResult::Int(x) => ArgValue::Int(x),
            SqlResult::Decimal(Some(s)) => ArgValue::Decimal(Some(s.to_owned())),
            SqlResult::Decimal(None) => ArgValue::Decimal(None),
        }
    }

    /// Borrow this value as a [`SqlResult`].
    pub fn as_result(&self) -> (r: SqlResult<'_>)
        ensures
            result_holds(r, *self),
    {
        match self {
            ArgValue::String(Some(b)) => SqlResult::String(Some(b.as_slice())),
            ArgValue::String(None) => SqlResult::String(None),
            ArgValue::Real(x) => SqlResult::Real(*x),
            ArgValue::Int(x) => SqlResult::Int(*x),
            ArgValue::Decimal(Some(s)) => SqlResult::Decimal(Some(s.as_str())),
            ArgValue::Decimal(None) => SqlResult::Decimal(None),
        }
    }
}

/// One argument as the server passes it.
#[derive(Debug)]
pub struct ArgData {
    /// The argument's value
    pub value: ArgValue,
    /// The type code; a requested coercion is packed in (see [`crate::coerce`])
    pub arg_type: i32,
    /// Whether the argument may be `NULL`
    pub maybe_null: bool,
    /// The argument's text in the query
    pub attribute: String,
}

/// Whether a type code, or the coercion requested in it, names a SQL type.
pub open spec fn type_code_usable(arg_type: i32) -> bool {
    type_of_code(spec_desired_or_current(arg_type) as int) is Some
}

/// The SQL type of an owned argument value.
pub open spec fn value_type(v: ArgValue) -> SqlType {
    match v {
        ArgValue::String(_) => SqlType::String,
        ArgValue::Real(_) => SqlType::Real,
        ArgValue::Int(_) => SqlType::Int,
        ArgValue::Decimal(_) => SqlType::Decimal,
    }
}

/// Whether a value is of the current type held in a type code (the value is
/// decoded from the code; a requested coercion, held apart in the code, does
/// not change it).
pub open spec fn value_matches_code(v: ArgValue, arg_type: i32) -> bool {
    type_of_code(spec_current_type(arg_type) as int) == Some(value_type(v))
}

impl ArgValue {
    /// The SQL type of this value.
    pub fn sql_type(&self) -> (r: SqlType)
        ensures
            r == value_type(*self),
    {
        match self {
            ArgValue::String(_) => SqlType::String,
            ArgValue::Real(_) => SqlType::Real,
            ArgValue::Int(_) => SqlType::Int,
            ArgValue::Decimal(_) => SqlType::Decimal,
        }
    }
}

/// A collection of SQL arguments, used during phase `S`.
pub struct ArgList<S: UdfState> {
    values: Vec<ArgValue>,
    arg_types: Vec<i32>,
    maybe_null: Vec<bool>,
    attributes: Vec<String>,
    flushed: Ghost<bool>,
    marker: PhantomData<S>,
}

impl<S: UdfState> ArgList<S> {
    #[verifier::type_invariant]
    spec fn wf(self) -> bool {
        &&& self.arg_types@.len() == self.values@.len()
        &&& self.maybe_null@.len() == self.values@.len()
        &&& self.attributes@.len() == self.values@.len()
        &&& forall|i: int|
            0 <= i < self.arg_types@.len() ==> type_code_usable(#[trigger] self.arg_types@[i])
        &&& !self.flushed@ ==> forall|i: int|
            0 <= i < self.values@.len() ==> value_matches_code(
                #[trigger] self.values@[i],
                self.arg_types@[i],
            )
    }

    /// Whether requested coercions have been applied to the type codes. Until
    /// then each value is of the current type held in its type code.
    pub closed spec fn is_flushed(&self) -> bool {
        self.flushed@
    }

    /// Number of arguments.
    pub closed spec fn spec_len(&self) -> nat {
        self.values@.len()
    }

    /// The value of argument `i`.
    pub closed spec fn value_at(&self, i: int) -> ArgValue {
        self.values@[i]
    }

    /// The type code of argument `i` (with any requested coercion).
    pub closed spec fn arg_type_at(&self, i: int) -> i32 {
        self.arg_types@[i]
    }

    /// Whether argument `i` may be `NULL`.
    pub closed spec fn maybe_null_at(&self, i: int) -> bool {
        self.maybe_null@[i]
    }

    /// The attribute of argument `i`.
    pub closed spec fn attribute_at(&self, i: int) -> Seq<char> {
        self.attributes@[i]@
    }

    /// The type codes of all arguments.
    pub open spec fn arg_types(&self) -> Seq<i32> {
        Seq::new(self.spec_len(), |i: int| self.arg_type_at(i))
    }

    /// Whether every argument's type code (or requested coercion) is a SQL
    /// type.
    pub fn all_types_usable(args: &Vec<ArgData>) -> (r: bool)
        ensures
            r == forall|i: int| 0 <= i < args@.len() ==> type_code_usable(#[trigger] args@[i].arg_type),
    {
        let mut i: usize = 0;
        while i < args.len()
            invariant
                0 <= i <= args@.len(),
                forall|j: int| 0 <= j < i ==> type_code_usable(#[trigger] args@[j].arg_type),
            decreases args@.len() - i,
        {
            match SqlType::try_from_item_result(get_desired_or_current(args[i].arg_type)) {
                Ok(_) => {},
                Err(_) => {
                    return false;
                },
            }
            i += 1;
        }
        true
    }

    /// Whether every argument's value is of the current type held in its
    /// type code.
    pub fn all_values_match(args: &Vec<ArgData>) -> (r: bool)
        ensures
            r == forall|i: int|
                0 <= i < args@.len() ==> value_matches_code(#[trigger] args@[i].value, args@[i].arg_type),
    {
        let mut i: usize = 0;
        while i < args.len()
            invariant
                0 <= i <= args@.len(),
                forall|j: int|
                    0 <= j < i ==> value_matches_code(#[trigger] args@[j].value, args@[j].arg_type),
            decreases args@.len() - i,
        {
            match SqlType::try_from_item_result(get_current_type(args[i].arg_type)) {
                Ok(t) => {
                    if t != args[i].value.sql_type() {
                        assert(!value_matches_code(args@[i as int].value, args@[i as int].arg_type));
                        return false;
                    }
                },
                Err(_) => {
                    assert(!value_matches_code(args@[i as int].value, args@[i as int].arg_type));
                    return false;
                },
            }
            i += 1;
        }
        true
    }

    /// Build a list from the arguments, or `None` when some argument's type
    /// code (or requested coercion) is no SQL type, or some value is not of
    /// the current type held in its type code.
    pub fn try_new(args: Vec<ArgData>) -> (r: Option<Self>)
        ensures
            r is Some <==> (forall|i: int| 0 <= i < args@.len() ==> type_code_usable(#[trigger] args@[i].arg_type))
                && (forall|i: int|
                0 <= i < args@.len() ==> value_matches_code(#[trigger] args@[i].value, args@[i].arg_type)),
            r matches Some(l) ==> l.holds(args@) && !l.is_flushed(),
    {
        if Self::all_types_usable(&args) && Self::all_values_match(&args) {
            Some(Self::new(args))
        } else {
            None
        }
    }

    /// Whether this list holds exactly the given arguments.
    pub open spec fn holds(&self, args: Seq<ArgData>) -> bool {
        &&& self.spec_len() == args.len()
        &&& forall|i: int|
            #![trigger args[i]]
            0 <= i < args.len() ==> {
                &&& self.value_at(i) == args[i].value
                &&& self.arg_type_at(i) == args[i].arg_type
                &&& self.maybe_null_at(i) == args[i].maybe_null
                &&& self.attribute_at(i) == args[i].attribute@
            }
    }

    /// Build a list from the arguments; each argument's type code (or
    /// requested coercion) must be a SQL type, and each value must be of the
    /// current type held in its type code.
    pub fn new(args: Vec<ArgData>) -> (r: Self)
        requires
            forall|i: int| 0 <= i < args@.len() ==> type_code_usable(#[trigger] args@[i].arg_type),
            forall|i: int|
                0 <= i < args@.len() ==> value_matches_code(#[trigger] args@[i].value, args@[i].arg_type),
        ensures
            r.holds(args@),
            !r.is_flushed(),
    {
        let ghost orig = args@;
        let total = args.len();
        assert(orig.len() == total);
        let mut args = args;
        let mut values: Vec<ArgValue> = Vec::new();
        let mut arg_types: Vec<i32> = Vec::new();
        let mut maybe_null: Vec<bool> = Vec::new();
        let mut attributes: Vec<String> = Vec::new();
        let mut i: usize = 0;
        while args.len() > 0
            invariant
                orig.len() <= usize::MAX,
                forall|j: int| 0 <= j < orig.len() ==> type_code_usable(#[trigger] orig[j].arg_type),
                forall|j: int|
                    0 <= j < orig.len() ==> value_matches_code(#[trigger] orig[j].value, orig[j].arg_type),
                i + args@.len() == orig.len(),
                args@ == orig.subrange(i as int, orig.len() as int),
                values@.len() == i,
                arg_types@.len() == i,
                maybe_null@.len() == i,
                attributes@.len() == i,
                forall|j: int|
                    #![trigger orig[j]]
                    0 <= j < i ==> {
                        &&& values@[j] == orig[j].value
                        &&& arg_types@[j] == orig[j].arg_type
                        &&& maybe_null@[j] == orig[j].maybe_null
                        &&& attributes@[j] == orig[j].attribute
                    },
            decreases args@.len(),
        {
            let ArgData { value, arg_type, maybe_null: mn, attribute } = args.remove(0);
            assert(orig[i as int].arg_type == arg_type);
            values.push(value);
            arg_types.push(arg_type);
            maybe_null.push(mn);
            attributes.push(attribute);
            i += 1;
        }
        assert forall|j: int| 0 <= j < arg_types@.len() implies type_code_usable(
            #[trigger] arg_types@[j],
        ) by {
            assert(type_code_usable(orig[j].arg_type));
        }
        assert forall|j: int| 0 <= j < values@.len() implies value_matches_code(
            #[trigger] values@[j],
            arg_types@[j],
        ) by {
            assert(value_matches_code(orig[j].value, orig[j].arg_type));
        }
        ArgList { values, arg_types, maybe_null, attributes, flushed: Ghost(false), marker: PhantomData }
    }

    /// The type codes of all arguments, in order (to hand back to the server).
    pub fn type_codes(&self) -> (r: Vec<i32>)
        ensures
            r@ == self.arg_types(),
    {
        proof {
            use_type_invariant(self);
        }
        let r = self.arg_types.clone();
        assert(r@ =~= self.arg_types());
        r
    }

    /// Return `true` if there are no arguments
    pub fn is_empty(&self) -> (r: bool)
        ensures
            r == (self.spec_len() == 0),
    {
        self.len() == 0
    }

    /// Get the number of arguments
    pub fn len(&self) -> (r: usize)
        ensures
            r == self.spec_len(),
    {
        self.values.len()
    }

    /// Safely get an argument at a given index. It it is not available, `None`
    /// will be returned.
    pub fn get(&self, index: usize) -> (r: Option<SqlArg<'_, S>>)
        ensures
            r is Some <==> index < self.spec_len(),
            r matches Some(a) ==> a.position() == index && a.list() == *self,
    {
        if index >= self.values.len() {
            return None;
        }
        Some(SqlArg { base: self, index })
    }

    /// Create a vector of all arguments, in order.
    pub fn as_vec(&self) -> (r: Vec<SqlArg<'_, S>>)
        ensures
            r@.len() == self.spec_len(),
            forall|i: int|
                0 <= i < r@.len() ==> (#[trigger] r@[i]).position() == i && r@[i].list() == *self,
    {
        let mut r: Vec<SqlArg<'_, S>> = Vec::new();
        let mut i: usize = 0;
        while i < self.values.len()
            invariant
                0 <= i <= self.spec_len(),
                r@.len() == i,
                forall|j: int|
                    0 <= j < i ==> (#[trigger] r@[j]).position() == j && r@[j].list() == *self,
            decreases self.spec_len() - i,
        {
            r.push(SqlArg { base: self, index: i });
            i += 1;
        }
        r
    }

    /// Construct an iterator over arguments
    pub fn iter(&self) -> (r: Iter<'_, S>)
        ensures
            r.list() == *self,
            r.next_position() == 0,
    {
        Iter { base: self, n: 0 }
    }
}

/// The type code after recording a coercion to `newtype` in `arg_type`.
pub open spec fn coerced_type(arg_type: i32, newtype: SqlType) -> i32 {
    spec_set_coercion(arg_type, type_code(newtype))
}

/// The type the server sees after a coercion request is applied is the type
/// that was requested, whatever the argument's type code was before.
pub proof fn law_flush_after_coercion(arg_type: i32, newtype: SqlType)
    ensures
        spec_desired_or_current(coerced_type(arg_type, newtype)) == type_code(newtype),
        type_of_code(spec_desired_or_current(coerced_type(arg_type, newtype)) as int) == Some(
            newtype,
        ),
{
    law_coercion_reads_back(arg_type, type_code(newtype));
}

/// Operations only possible during initialization
impl ArgList<Init> {
    /// Instruct the SQL server to coerce argument `index` to `newtype`. This
    /// does not change the value visible through [`SqlArg::value`].
    pub fn set_type_coercion(&mut self, index: usize, newtype: SqlType)
        requires
            index < old(self).spec_len(),
        ensures
            final(self).spec_len() == old(self).spec_len(),
            final(self).is_flushed() == old(self).is_flushed(),
            final(self).arg_types() == old(self).arg_types().update(
                index as int,
                coerced_type(old(self).arg_type_at(index as int), newtype),
            ),
            forall|i: int|
                0 <= i < old(self).spec_len() ==> #[trigger] final(self).arg_type_at(i) == if i
                    == index {
                    coerced_type(old(self).arg_type_at(i), newtype)
                } else {
                    old(self).arg_type_at(i)
                },
            forall|i: int|
                0 <= i < old(self).spec_len() ==> #[trigger] final(self).value_at(i) == old(
                    self,
                ).value_at(i) && final(self).maybe_null_at(i) == old(self).maybe_null_at(i)
                    && final(self).attribute_at(i) == old(self).attribute_at(i),
    {
        proof {
            use_type_invariant(&*self);
        }
        let ghost old_types = self.arg_types();
        let code = newtype.to_item_result();
        let t = set_coercion(self.arg_types[index], code);
        proof {
            law_coercion_reads_back(self.arg_types@[index as int], code);
            law_set_coercion_roundtrip(self.arg_types@[index as int], code);
            assert(type_code_usable(t));
        }
        let mut types = self.arg_types.clone();
        assert(types@ =~= self.arg_types@);
        types.set(index, t);
        self.arg_types = types;
        assert(self.arg_types() =~= old_types.update(index as int, t));
    }

    /// Assign the requested coercion of argument `index` as its type: the
    /// type code becomes the requested type (or stays the current type when
    /// none was requested), with no coercion marked. The type read back by
    /// [`SqlArg::get_type_coercion`] does not change, and flushing again
    /// changes nothing.
    pub fn flush_coercion(&mut self, index: usize)
        requires
            index < old(self).spec_len(),
        ensures
            final(self).spec_len() == old(self).spec_len(),
            final(self).is_flushed(),
            final(self).arg_types() == old(self).arg_types().update(
                index as int,
                spec_desired_or_current(old(self).arg_type_at(index as int)),
            ),
            final(self).arg_type_at(index as int) == spec_desired_or_current(
                old(self).arg_type_at(index as int),
            ),
            forall|i: int|
                0 <= i < old(self).spec_len() && i != index ==> #[trigger] final(self).arg_type_at(i)
                    == old(self).arg_type_at(i),
            type_of_code(final(self).arg_type_at(index as int) as int) is Some,
            !spec_coercion_is_set(final(self).arg_type_at(index as int)),
            spec_current_type(final(self).arg_type_at(index as int)) == final(self).arg_type_at(
                index as int,
            ),
            spec_desired_or_current(final(self).arg_type_at(index as int)) == final(self).arg_type_at(
                index as int,
            ),
            forall|i: int|
                0 <= i < old(self).spec_len() ==> #[trigger] final(self).value_at(i) == old(
                    self,
                ).value_at(i) && final(self).maybe_null_at(i) == old(self).maybe_null_at(i)
                    && final(self).attribute_at(i) == old(self).attribute_at(i),
    {
        proof {
            use_type_invariant(&*self);
        }
        let d = get_desired_or_current(self.arg_types[index]);
        let t = match item_result_try_from(d) {
            Ok(v) => v,
            Err(_) => {
                proof {
                    assert(type_code_usable(self.arg_types@[index as int]));
                    assert(false);
                }
                d
            },
        };
        proof {
            law_plain_type_code(t);
            assert(type_code_usable(t));
        }
        let ghost old_types = self.arg_types();
        let mut types = self.arg_types.clone();
        assert(types@ =~= self.arg_types@);
        types.set(index, t);
        self.flushed = Ghost(true);
        self.arg_types = types;
        assert(self.arg_types() =~= old_types.update(index as int, t));
    }

    /// Apply the pending coercion for all arguments.
    pub fn flush_all_coercions(&mut self)
        ensures
            final(self).spec_len() == old(self).spec_len(),
            final(self).is_flushed(),
            forall|i: int|
                0 <= i < old(self).spec_len() ==> !spec_coercion_is_set(
                    #[trigger] final(self).arg_type_at(i),
                ),
            forall|i: int|
                0 <= i < old(self).spec_len() ==> #[trigger] final(self).arg_type_at(i)
                    == spec_desired_or_current(old(self).arg_type_at(i)),
            forall|i: int|
                0 <= i < old(self).spec_len() ==> type_of_code(
                    #[trigger] final(self).arg_type_at(i) as int,
                ) is Some,
            forall|i: int|
                0 <= i < old(self).spec_len() ==> #[trigger] final(self).value_at(i) == old(
                    self,
                ).value_at(i) && final(self).maybe_null_at(i) == old(self).maybe_null_at(i)
                    && final(self).attribute_at(i) == old(self).attribute_at(i),
    {
        let ghost start = *self;
        let n = self.len();
        let mut i: usize = 0;
        while i < n
            invariant
                n == start.spec_len(),
                self.spec_len() == n,
                0 <= i <= n,
                forall|j: int|
                    0 <= j < i ==> #[trigger] self.arg_type_at(j) == spec_desired_or_current(
                        start.arg_type_at(j),
                    ),
                forall|j: int| 0 <= j < i ==> type_of_code(#[trigger] self.arg_type_at(j) as int) is Some,
                forall|j: int| 0 <= j < i ==> !spec_coercion_is_set(#[trigger] self.arg_type_at(j)),
                forall|j: int| i <= j < n ==> #[trigger] self.arg_type_at(j) == start.arg_type_at(j),
                forall|j: int|
                    0 <= j < n ==> #[trigger] self.value_at(j) == start.value_at(j)
                        && self.maybe_null_at(j) == start.maybe_null_at(j) && self.attribute_at(j)
                        == start.attribute_at(j),
            decreases n - i,
        {
            let ghost prev = *self;
            proof {
                use_type_invariant(&*self);
            }
            self.flush_coercion(i);
            i += 1;
        }
        proof {
            use_type_invariant(&*self);
        }
        let ghost before = *self;
        assert(forall|j: int| 0 <= j < n ==> !spec_coercion_is_set(#[trigger] before.arg_type_at(j)));
        self.flushed = Ghost(true);
        assert(forall|j: int| 0 <= j < n ==> #[trigger] self.arg_type_at(j) == before.arg_type_at(j));
        assert(forall|j: int|
            0 <= j < n ==> #[trigger] self.value_at(j) == before.value_at(j) && self.maybe_null_at(j)
                == before.maybe_null_at(j) && self.attribute_at(j) == before.attribute_at(j));
    }
}

/// A single SQL argument: a position in an [`ArgList`].
pub struct SqlArg<'a, S: UdfState> {
    base: &'a ArgList<S>,
    index: usize,
}

impl<'a, S: UdfState> SqlArg<'a, S> {
    #[verifier::type_invariant]
    spec fn in_bounds(self) -> bool {
        self.index < self.base.spec_len()
    }

    /// The position of this argument in its list.
    pub closed spec fn position(&self) -> int {
        self.index as int
    }

    /// The list this argument belongs to.
    pub closed spec fn list(&self) -> ArgList<S> {
        *self.base
    }

    /// The actual argument type and value. Until coercions are applied, its
    /// type is the current type held in the argument's type code.
    pub fn value(&self) -> (r: SqlResult<'a>)
        ensures
            result_holds(r, self.list().value_at(self.position())),
            !self.list().is_flushed() ==> type_of_code(
                spec_current_type(self.list().arg_type_at(self.position())) as int,
            ) == Some(r.sql_type()),
    {
        proof {
            use_type_invariant(self);
            use_type_invariant(self.base);
        }
        let base: &'a ArgList<S> = self.base;
        base.values[self.index].as_result()
    }

    /// A string representation of this argument's identifier
    pub fn attribute(&self) -> (r: &'a str)
        ensures
            r@ == self.list().attribute_at(self.position()),
    {
        proof {
            use_type_invariant(self);
            use_type_invariant(self.base);
        }
        let base: &'a ArgList<S> = self.base;
        base.attributes[self.index].as_str()
    }
}

/// Whether a value is present (not `NULL`).
pub open spec fn value_present(v: ArgValue) -> bool {
    match v {
        ArgValue::String(x) => x is Some,
        ArgValue::Real(x) => x is Some,
        ArgValue::Int(x) => x is Some,
        ArgValue::Decimal(x) => x is Some,
    }
}

/// This includes functions that are only applicable during initialization
impl<'a> SqlArg<'a, Init> {
    /// Determine whether an argument **may** be constant
    ///
    /// During initialization, a value is const if it is not `None`.
    pub fn is_const(&self) -> (r: bool)
        ensures
            r == value_present(self.list().value_at(self.position())),
    {
        match self.value() {
            SqlResult::String(v) => v.is_some(),
            SqlResult::Decimal(v) => v.is_some(),
            SqlResult::Real(v) => v.is_some(),
            SqlResult::Int(v) => v.is_some(),
        }
    }

    /// Whether or not this argument may be `NULL`
    pub fn maybe_null(&self) -> (r: bool)
        ensures
            r == self.list().maybe_null_at(self.position()),
    {
        proof {
            use_type_invariant(self);
            use_type_invariant(self.base);
        }
        self.base.maybe_null[self.index]
    }

    /// Retrieve the current type coercion: the requested one if set, else the
    /// current type, which (before coercions are applied) is the type of the
    /// argument's value.
    pub fn get_type_coercion(&self) -> (r: SqlType)
        ensures
            type_of_code(spec_desired_or_current(self.list().arg_type_at(self.position())) as int)
                == Some(r),
            !self.list().is_flushed() && !spec_coercion_is_set(
                self.list().arg_type_at(self.position()),
            ) ==> r == value_type(self.list().value_at(self.position())),
    {
        proof {
            use_type_invariant(self);
            use_type_invariant(self.base);
        }
        let arg_type = self.base.arg_types[self.index];
        let coerced_type = match get_coercion(arg_type) {
            Some(c) => c,
            None => get_current_type(arg_type),
        };
        match SqlType::try_from_item_result(coerced_type) {
            Ok(t) => t,
            Err(_) => {
                proof {
                    assert(type_code_usable(arg_type));
                    assert(false);
                }
                SqlType::Int
            },
        }
    }
}

/// Iterator over arguments in an [`ArgList`]
pub struct Iter<'a, S: UdfState> {
    base: &'a ArgList<S>,
    n: usize,
}

impl<'a, S: UdfState> Iter<'a, S> {
    /// The list being walked.
    pub closed spec fn list(&self) -> ArgList<S> {
        *self.base
    }

    /// The position of the next argument.
    pub closed spec fn next_position(&self) -> int {
        self.n as int
    }

    /// Get the next argument
    pub fn next(&mut self) -> (r: Option<SqlArg<'a, S>>)
        ensures
            final(self).list() == old(self).list(),
            old(self).next_position() < old(self).list().spec_len() ==> {
                &&& r matches Some(a) && a.position() == old(self).next_position() && a.list()
                    == old(self).list()
                &&& final(self).next_position() == old(self).next_position() + 1
            },
            old(self).next_position() >= old(self).list().spec_len() ==> r is None
                && final(self).next_position() == old(self).next_position(),
    {
        if self.n >= self.base.len() {
            return None;
        }
        let base: &'a ArgList<S> = self.base;
        let ret = base.get(self.n);
        self.n += 1;
        ret
    }

    /// We know exactly how many items we have remaining.
    pub fn size_hint(&self) -> (r: (usize, Option<usize>))
        ensures
            r.0 == if self.next_position() <= self.list().spec_len() {
                self.list().spec_len() - self.next_position()
            } else {
                0
            },
            r.1 == Some(r.0),
    {
        let remaining = self.base.len().saturating_sub(self.n);
        (remaining, Some(remaining))
    }
}

} // verus!
