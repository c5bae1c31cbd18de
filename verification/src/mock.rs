//! Mocks of the server's argument list and configuration, for unit testing
//! UDFs without a server.

use vstd::prelude::*;

use crate::arg::{ArgData, ArgList, ArgValue};
use crate::coerce::law_plain_type_code;
use crate::config::{CfgValues, UdfCfg};
use crate::sql_types::{DECIMAL_RESULT, INT_RESULT, REAL_RESULT, STRING_RESULT};
use crate::arg::{type_code_usable, value_matches_code};
use crate::traits::{Init, Process, UdfState};

verus! {

/// A structure that produces `UdfCfg` objects for tests. The settings it
/// holds are shared by the `Init` and `Process` configurations it hands out.
pub struct MockUdfCfg {
    init: UdfCfg<Init>,
    process: UdfCfg<Process>,
    last_process: bool,
}

impl View for MockUdfCfg {
    type V = CfgValues;

    closed spec fn view(&self) -> CfgValues {
        if self.last_process {
            self.process@
        } else {
            self.init@
        }
    }
}

impl MockUdfCfg {
    /// Create a new structure: not nullable, no decimals, no max length, not
    /// const.
    pub fn new() -> (r: Self)
        ensures
            r@ == (CfgValues { maybe_null: false, decimals: 0, max_len: 0, is_const: false }),
    {
        let values = CfgValues { maybe_null: false, decimals: 0, max_len: 0, is_const: false };
        MockUdfCfg { init: UdfCfg::new(values), process: UdfCfg::new(values), last_process: false }
    }

    /// A `&mut UdfCfg<Init>` to test calling a UDF `init` function; changes
    /// made through it are seen by the mock.
    pub fn as_init(&mut self) -> (r: &mut UdfCfg<Init>)
        ensures
            (*r)@ == old(self)@,
            final(self)@ == (*final(r))@,
    {
        if self.last_process {
            self.init = UdfCfg::new(self.process.values());
            self.last_process = false;
        }
        &mut self.init
    }

    /// A `&mut UdfCfg<Process>` to test calling a UDF `process` function;
    /// changes made through it are seen by the mock.
    pub fn as_process(&mut self) -> (r: &mut UdfCfg<Process>)
        ensures
            (*r)@ == old(self)@,
            final(self)@ == (*final(r))@,
    {
        if !self.last_process {
            self.process = UdfCfg::new(self.init.values());
            self.last_process = true;
        }
        &mut self.process
    }

    /// Get or set the `maybe_null` field
    pub fn maybe_null(&mut self) -> (r: &mut bool)
        ensures
            *r == old(self)@.maybe_null,
            final(self)@ == (CfgValues { maybe_null: *final(r), ..old(self)@ }),
    {
        if self.last_process {
            self.process.maybe_null_mut()
        } else {
            self.init.maybe_null_mut()
        }
    }

    /// Get or set the `decimals` field
    pub fn decimals(&mut self) -> (r: &mut u32)
        ensures
            *r == old(self)@.decimals,
            final(self)@ == (CfgValues { decimals: *final(r), ..old(self)@ }),
    {
        if self.last_process {
            self.process.decimals_mut()
        } else {
            self.init.decimals_mut()
        }
    }

    /// Get or set the `max_len` field
    pub fn max_len(&mut self) -> (r: &mut u64)
        ensures
            *r == old(self)@.max_len,
            final(self)@ == (CfgValues { max_len: *final(r), ..old(self)@ }),
    {
        if self.last_process {
            self.process.max_len_mut()
        } else {
            self.init.max_len_mut()
        }
    }

    /// Get or set the `is_const` field
    pub fn is_const(&mut self) -> (r: &mut bool)
        ensures
            *r == old(self)@.is_const,
            final(self)@ == (CfgValues { is_const: *final(r), ..old(self)@ }),
    {
        if self.last_process {
            self.process.is_const_mut()
        } else {
            self.init.is_const_mut()
        }
    }
}

/// A representation of data within a mock argument
///
/// A real value is held as the bits of its `f64`.
#[derive(Debug)]
#[non_exhaustive]
pub enum MockArgData {
    /// A string given as text
    String(Option<String>),
    /// A string given as bytes
    Bytes(Option<Vec<u8>>),
    /// A real, as the bits of an `f64`
    Real(Option<u64>),
    /// An integer
    Int(Option<i64>),
    /// A decimal, as its text
    Decimal(Option<String>),
}

/// The server type code a mock value is passed with.
pub open spec fn mock_type_code(d: MockArgData) -> i32 {
    match d {
        MockArgData::String(_) | MockArgData::Bytes(_) => STRING_RESULT,
        MockArgData::Real(_) => REAL_RESULT,
        MockArgData::Int(_) => INT_RESULT,
        MockArgData::Decimal(_) => DECIMAL_RESULT,
    }
}

/// Whether a built argument value holds what the mock value says.
pub open spec fn built_value_holds(v: ArgValue, d: MockArgData) -> bool {
    match (v, d) {
        (ArgValue::String(Some(b)), MockArgData::String(Some(s))) => b@ == vstd::utf8::encode_utf8(s@),
        (ArgValue::String(None), MockArgData::String(None)) => true,
        (ArgValue::String(Some(b)), MockArgData::Bytes(Some(c))) => b@ == c@,
        (ArgValue::String(None), MockArgData::Bytes(None)) => true,
        (ArgValue::Real(x), MockArgData::Real(y)) => x == y,
        (ArgValue::Int(x), MockArgData::Int(y)) => x == y,
        (ArgValue::Decimal(Some(s)), MockArgData::Decimal(Some(t))) => s@ == t@,
        (ArgValue::Decimal(None), MockArgData::Decimal(None)) => true,
        _ => false,
    }
}

impl MockArgData {
    /// The server type code this value is passed with.
    pub fn as_item_result(&self) -> (r: i32)
        ensures
            r == mock_type_code(*self),
    {
        match *self {
            Self::String(_) | Self::Bytes(_) => STRING_RESULT,
            Self::Real(_) => REAL_RESULT,
            Self::Int(_) => INT_RESULT,
            Self::Decimal(_) => DECIMAL_RESULT,
        }
    }

    /// The value as the server would pass it.
    pub fn to_arg_value(&self) -> (r: ArgValue)
        ensures
            built_value_holds(r, *self),
    {
        match self {
            Self::String(Some(s)) => ArgValue::String(Some(vstd::slice::slice_to_vec(s.as_str().as_bytes()))),
            Self::String(None) => ArgValue::String(None),
            Self::Bytes(Some(b)) => ArgValue::String(Some(vstd::slice::slice_to_vec(b.as_slice()))),
            Self::Bytes(None) => ArgValue::String(None),
            Self::Real(x) => ArgValue::Real(*x),
            Self::Int(x) => ArgValue::Int(*x),
            Self::Decimal(Some(s)) => ArgValue::Decimal(Some(s.clone())),
            Self::Decimal(None) => ArgValue::Decimal(None),
        }
    }

    /// A string value.
    pub fn from_str(value: &str) -> (r: Self)
        ensures
            r matches MockArgData::String(Some(s)) && s@ == value@,
    {
        Self::String(Some(value.to_owned()))
    }

    /// A nullable string value.
    pub fn from_opt_str(value: Option<&str>) -> (r: Self)
        ensures
            match value {
                Some(v) => r matches MockArgData::String(Some(s)) && s@ == v@,
                None => r matches MockArgData::String(None),
            },
    {
        match value {
            Some(v) => Self::String(Some(v.to_owned())),
            None => Self::String(None),
        }
    }

    /// A byte string value.
    pub fn from_bytes(value: &[u8]) -> (r: Self)
        ensures
            r matches MockArgData::Bytes(Some(b)) && b@ == value@,
    {
        Self::Bytes(Some(vstd::slice::slice_to_vec(value)))
    }

    /// A nullable byte string value.
    pub fn from_opt_bytes(value: Option<&[u8]>) -> (r: Self)
        ensures
            match value {
                Some(v) => r matches MockArgData::Bytes(Some(b)) && b@ == v@,
                None => r matches MockArgData::Bytes(None),
            },
    {
        match value {
            Some(v) => Self::Bytes(Some(vstd::slice::slice_to_vec(v))),
            None => Self::Bytes(None),
        }
    }

    /// An integer value.
    pub fn from_int(value: i64) -> (r: Self)
        ensures
            r == MockArgData::Int(Some(value)),
    {
        Self::Int(Some(value))
    }

    /// A nullable integer value.
    pub fn from_opt_int(value: Option<i64>) -> (r: Self)
        ensures
            r == MockArgData::Int(value),
    {
        Self::Int(value)
    }

    /// A real value, given as the bits of an `f64`.
    pub fn from_real_bits(bits: u64) -> (r: Self)
        ensures
            r == MockArgData::Real(Some(bits)),
    {
        Self::Real(Some(bits))
    }

    /// A nullable real value, given as the bits of an `f64`.
    pub fn from_opt_real_bits(bits: Option<u64>) -> (r: Self)
        ensures
            r == MockArgData::Real(bits),
    {
        Self::Real(bits)
    }

    /// A decimal value, given as its text.
    pub fn from_decimal(value: &str) -> (r: Self)
        ensures
            r matches MockArgData::Decimal(Some(s)) && s@ == value@,
    {
        Self::Decimal(Some(value.to_owned()))
    }
}

/// A single mock argument to be used when constructing a [`MockArgList`]
#[derive(Debug)]
pub struct MockArg {
    value: MockArgData,
    attribute: String,
    maybe_null: bool,
}

impl MockArg {
    /// The argument's data.
    pub closed spec fn spec_value(&self) -> MockArgData {
        self.value
    }

    /// The argument's attribute.
    pub closed spec fn spec_attribute(&self) -> Seq<char> {
        self.attribute@
    }

    /// Whether the argument may be `NULL`.
    pub closed spec fn spec_maybe_null(&self) -> bool {
        self.maybe_null
    }

    /// Create a new mock argument with given contents, attribute, and
    /// nullability
    pub fn new(value: MockArgData, attr: &str, maybe_null: bool) -> (r: Self)
        ensures
            r.spec_value() == value,
            r.spec_attribute() == attr@,
            r.spec_maybe_null() == maybe_null,
    {
        Self { value, attribute: attr.to_owned(), maybe_null }
    }

    /// Get a reference to this argument's value for setting or updating
    pub fn value(&mut self) -> (r: &mut MockArgData)
        ensures
            *r == old(self).spec_value(),
            final(self).spec_value() == *final(r),
            final(self).spec_attribute() == old(self).spec_attribute(),
            final(self).spec_maybe_null() == old(self).spec_maybe_null(),
    {
        &mut self.value
    }

    /// Get a reference to this argument's attribute for setting or updating
    pub fn attribute(&mut self) -> (r: &mut String)
        ensures
            (*r)@ == old(self).spec_attribute(),
            final(self).spec_attribute() == (*final(r))@,
            final(self).spec_value() == old(self).spec_value(),
            final(self).spec_maybe_null() == old(self).spec_maybe_null(),
    {
        &mut self.attribute
    }

    /// The argument as the server would pass it.
    fn to_arg_data(&self) -> (r: ArgData)
        ensures
            built_value_holds(r.value, self.spec_value()),
            r.arg_type == mock_type_code(self.spec_value()),
            r.maybe_null == self.spec_maybe_null(),
            r.attribute@ == self.spec_attribute(),
    {
        ArgData {
            value: self.value.to_arg_value(),
            arg_type: self.value.as_item_result(),
            maybe_null: self.maybe_null,
            attribute: self.attribute.clone(),
        }
    }
}

/// Whether a built list holds exactly the mock arguments.
pub open spec fn built_list_holds<S: UdfState>(l: ArgList<S>, args: Seq<MockArg>) -> bool {
    &&& l.spec_len() == args.len()
    &&& forall|i: int|
        #![trigger args[i]]
        0 <= i < args.len() ==> {
            &&& built_value_holds(l.value_at(i), args[i].spec_value())
            &&& l.arg_type_at(i) == mock_type_code(args[i].spec_value())
            &&& l.maybe_null_at(i) == args[i].spec_maybe_null()
            &&& l.attribute_at(i) == args[i].spec_attribute()
        }
}

/// Structure to create an `ArgList` for testing
pub struct MockArgList {
    unbuilt_args: Vec<MockArg>,
    built_init: Option<ArgList<Init>>,
    built_process: Option<ArgList<Process>>,
}

impl MockArgList {
    /// The arguments pushed so far.
    pub closed spec fn args(&self) -> Seq<MockArg> {
        self.unbuilt_args@
    }

    /// An empty list.
    pub fn new() -> (r: Self)
        ensures
            r.args() == Seq::<MockArg>::empty(),
    {
        Self { unbuilt_args: Vec::new(), built_init: None, built_process: None }
    }

    /// A list of the given arguments, in order.
    pub fn from_args(args: Vec<MockArg>) -> (r: Self)
        ensures
            r.args() == args@,
    {
        Self { unbuilt_args: args, built_init: None, built_process: None }
    }

    /// Add an argument at the end.
    pub fn push_arg(&mut self, arg: MockArg)
        ensures
            final(self).args() == old(self).args().push(arg),
    {
        self.unbuilt_args.push(arg);
    }

    /// Build the arguments into an argument list.
    fn build<S: UdfState>(&self) -> (r: ArgList<S>)
        ensures
            built_list_holds(r, self.args()),
    {
        let mut data: Vec<ArgData> = Vec::new();
        let mut i: usize = 0;
        while i < self.unbuilt_args.len()
            invariant
                0 <= i <= self.args().len(),
                data@.len() == i,
                forall|j: int|
                    #![trigger data@[j]]
                    0 <= j < i ==> {
                        &&& built_value_holds(data@[j].value, self.args()[j].spec_value())
                        &&& data@[j].arg_type == mock_type_code(self.args()[j].spec_value())
                        &&& data@[j].maybe_null == self.args()[j].spec_maybe_null()
                        &&& data@[j].attribute@ == self.args()[j].spec_attribute()
                    },
            decreases self.args().len() - i,
        {
            data.push(self.unbuilt_args[i].to_arg_data());
            i += 1;
        }
        let ghost d = data@;
        proof {
            assert forall|j: int| 0 <= j < data@.len() implies type_code_usable(
                #[trigger] data@[j].arg_type,
            ) by {
                law_plain_type_code(data@[j].arg_type);
            }
            assert forall|j: int| 0 <= j < data@.len() implies value_matches_code(
                #[trigger] data@[j].value,
                data@[j].arg_type,
            ) by {
                law_plain_type_code(data@[j].arg_type);
            }
        }
        let l = ArgList::new(data);
        assert forall|j: int| 0 <= j < self.args().len() implies {
            &&& built_value_holds(l.value_at(j), #[trigger] self.args()[j].spec_value())
            &&& l.arg_type_at(j) == mock_type_code(self.args()[j].spec_value())
            &&& l.maybe_null_at(j) == self.args()[j].spec_maybe_null()
            &&& l.attribute_at(j) == self.args()[j].spec_attribute()
        } by {
            assert(l.value_at(j) == d[j].value);
        }
        l
    }

    /// Create an `ArgList<Init>` for testing with the `init()` function call
    pub fn as_init(&mut self) -> (r: &mut ArgList<Init>)
        ensures
            built_list_holds(*r, old(self).args()),
            final(self).args() == old(self).args(),
    {
        let l = self.build::<Init>();
        self.built_init = Some(l);
        self.built_init.as_mut().unwrap()
    }

    /// Create an `ArgList<Process>` for testing with the `process()` function
    /// call
    pub fn as_process(&mut self) -> (r: &ArgList<Process>)
        ensures
            built_list_holds(*r, old(self).args()),
            final(self).args() == old(self).args(),
    {
        let l = self.build::<Process>();
        self.built_process = Some(l);
        self.built_process.as_ref().unwrap()
    }
}

} // verus!
