//! The configuration of a UDF's result, as the server keeps it in `UDF_INIT`.

use std::marker::PhantomData;

use vstd::prelude::*;

use crate::traits::{Init, UdfState};

verus! {

/// Helpful constants related to the `max_length` parameter
///
/// These can be helpful when calling [`UdfCfg::set_max_len()`]
#[non_exhaustive]
#[derive(Copy, Clone, Debug, PartialEq, Eq, Structural)]
pub enum MaxLenOptions {
    /// The default max length for integers is 21
    IntDefault,
    /// The default max length of a real value is 13 plus the result of
    /// [`UdfCfg::get_decimals()`]
    RealBase,
    /// A `blob` can be up to 65 KiB.
    Blob,
    /// A `mediumblob` can be up to 16 MiB.
    MediumBlob,
}

/// The length each option stands for.
pub open spec fn spec_max_len_value(o: MaxLenOptions) -> u32 {
    match o {
        MaxLenOptions::IntDefault => 21,
        MaxLenOptions::RealBase => 13,
        MaxLenOptions::Blob => 65536,
        MaxLenOptions::MediumBlob => 16777216,
    }
}

impl MaxLenOptions {
    /// The length this option stands for.
    pub fn value(&self) -> (r: u32)
        ensures
            r == spec_max_len_value(*self),
    {
        match *self {
            Self::IntDefault => 21,
            Self::RealBase => 13,
            Self::Blob => 65536,
            Self::MediumBlob => 16777216,
        }
    }
}

/// The settings a UDF reports about its result.
#[derive(Clone, Copy, Debug, PartialEq, Eq, Structural)]
pub struct CfgValues {
    /// True if the function can return `NULL`
    pub maybe_null: bool,
    /// Number of decimals of a real result
    pub decimals: u32,
    /// Maximum length of a string result
    pub max_len: u64,
    /// True if the function always returns the same value
    pub is_const: bool,
}

/// The configuration of a UDF's result during phase `S`.
pub struct UdfCfg<S: UdfState> {
    maybe_null: bool,
    decimals: u32,
    max_len: u64,
    is_const: bool,
    marker: PhantomData<S>,
}

impl<S: UdfState> View for UdfCfg<S> {
    type V = CfgValues;

    closed spec fn view(&self) -> CfgValues {
        CfgValues {
            maybe_null: self.maybe_null,
            decimals: self.decimals,
            max_len: self.max_len,
            is_const: self.is_const,
        }
    }
}

impl<S: UdfState> UdfCfg<S> {
    /// A configuration holding the given settings.
    pub fn new(values: CfgValues) -> (r: Self)
        ensures
            r@ == values,
    {
        UdfCfg {
            maybe_null: values.maybe_null,
            decimals: values.decimals,
            max_len: values.max_len,
            is_const: values.is_const,
            marker: PhantomData,
        }
    }

    /// All settings, to hand back to the server.
    pub fn values(&self) -> (r: CfgValues)
        ensures
            r == self@,
    {
        CfgValues {
            maybe_null: self.maybe_null,
            decimals: self.decimals,
            max_len: self.max_len,
            is_const: self.is_const,
        }
    }

    /// The `maybe_null` setting, mutably (for mocks).
    pub(crate) fn maybe_null_mut(&mut self) -> (r: &mut bool)
        ensures
            *r == old(self)@.maybe_null,
            final(self)@ == (CfgValues { maybe_null: *final(r), ..old(self)@ }),
    {
        &mut self.maybe_null
    }

    /// The `decimals` setting, mutably (for mocks).
    pub(crate) fn decimals_mut(&mut self) -> (r: &mut u32)
        ensures
            *r == old(self)@.decimals,
            final(self)@ == (CfgValues { decimals: *final(r), ..old(self)@ }),
    {
        &mut self.decimals
    }

    /// The `max_len` setting, mutably (for mocks).
    pub(crate) fn max_len_mut(&mut self) -> (r: &mut u64)
        ensures
            *r == old(self)@.max_len,
            final(self)@ == (CfgValues { max_len: *final(r), ..old(self)@ }),
    {
        &mut self.max_len
    }

    /// The `is_const` setting, mutably (for mocks).
    pub(crate) fn is_const_mut(&mut self) -> (r: &mut bool)
        ensures
            *r == old(self)@.is_const,
            final(self)@ == (CfgValues { is_const: *final(r), ..old(self)@ }),
    {
        &mut self.is_const
    }

    /// Retrieve the setting for whether this UDF may return `null`
    ///
    /// This defaults to true if any argument is nullable, false otherwise
    pub fn get_maybe_null(&self) -> (r: bool)
        ensures
            r == self@.maybe_null,
    {
        self.maybe_null
    }

    /// Retrieve the setting for number of decimal places
    pub fn get_decimals(&self) -> (r: u32)
        ensures
            r == self@.decimals,
    {
        self.decimals
    }

    /// Set the number of decimals this function returns
    ///
    /// This can be changed at any point in the UDF (init or process)
    pub fn set_decimals(&mut self, v: u32)
        ensures
            final(self)@ == (CfgValues { decimals: v, ..old(self)@ }),
    {
        self.decimals = v;
    }

    /// Retrieve the current maximum length setting for this in-progress UDF
    pub fn get_max_len(&self) -> (r: u64)
        ensures
            r == self@.max_len,
    {
        self.max_len
    }

    /// Get the current `const_item` value
    pub fn get_is_const(&self) -> (r: bool)
        ensures
            r == self@.is_const,
    {
        self.is_const
    }
}

/// Settings that can only be changed during initialization
impl UdfCfg<Init> {
    /// Set whether or not this function may return null
    pub fn set_maybe_null(&mut self, v: bool)
        ensures
            final(self)@ == (CfgValues { maybe_null: v, ..old(self)@ }),
    {
        self.maybe_null = v;
    }

    /// Set the maximum possible length of this UDF's result
    ///
    /// This is mostly relevant for String and Decimal return types. See
    /// [`MaxLenOptions`] for possible defaults, including `BLOB` sizes.
    pub fn set_max_len(&mut self, v: u32)
        ensures
            final(self)@ == (CfgValues { max_len: v as u64, ..old(self)@ }),
    {
        self.max_len = v as u64;
    }

    /// Set a new `const_item` value
    ///
    /// Set this to true if your function always returns the same values with
    /// the same arguments
    pub fn set_is_const(&mut self, v: bool)
        ensures
            final(self)@ == (CfgValues { is_const: v, ..old(self)@ }),
    {
        self.is_const = v;
    }
}

} // verus!
