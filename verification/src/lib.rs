//! Verified core of a toolkit for writing MariaDB/MySQL user-defined functions.
//!
//! The SQL server hands a UDF its arguments and configuration as C structures.
//! This library holds those structures as plain values and proves the logic that
//! works on them: argument type coercion, value decoding, result buffer
//! negotiation and the bookkeeping around the user's `init`/`process` calls.

use vstd::prelude::*;

pub mod coerce;
pub mod const_helpers;
pub mod text;
pub mod registration;
pub mod sql_types;
pub mod traits;
pub mod config;
pub mod arg;
mod udf_sys_calls;
pub mod wrapper;
pub mod mock;
pub mod ret_types;
pub mod examples;

verus! {

} // verus!
