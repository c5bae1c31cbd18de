//! The traits a UDF implements, the phase markers, and error types.
//!
//! A basic UDF just needs to implement [`BasicUdf`]. An aggregate UDF needs to
//! implement both [`BasicUdf`] and [`AggregateUdf`].

use core::fmt::Debug;

use vstd::prelude::*;

use crate::arg::ArgList;
use crate::config::UdfCfg;

verus! {

/// A state of the UDF, representing either `Init` or `Process`
///
/// This is a zero-sized type used to control what operations are allowed at
/// different times.
pub trait UdfState: Debug + PartialEq {

}

/// Typestate marker for the initialization phase
#[derive(Debug, PartialEq, Eq)]
pub struct Init();

/// Typestate marker for the processing phase
#[derive(Debug, PartialEq, Eq)]
pub struct Process();

impl UdfState for Init {

}

impl UdfState for Process {

}

/// Error returned by `process` when no result can be produced; the server
/// then returns `NULL`.
#[derive(Debug, Clone, Copy, PartialEq, Eq, Structural)]
pub struct ProcessError;

impl ProcessError {
    /// The text describing this error.
    pub fn message(&self) -> (r: &'static str)
        ensures
            r == "Processing error",
    {
        "Processing error"
    }
}

/// A nonzero aggregate error code, as the server keeps it in its `error`
/// flag.
#[derive(Debug, Clone, Copy, PartialEq, Eq)]
pub struct ErrorCode {
    code: u8,
}

impl View for ErrorCode {
    type V = u8;

    closed spec fn view(&self) -> u8 {
        self.code
    }
}

impl ErrorCode {
    #[verifier::type_invariant]
    spec fn nonzero(self) -> bool {
        self.code != 0
    }

    /// The code for a nonzero flag value, or `None` for zero.
    pub fn new(code: u8) -> (r: Option<ErrorCode>)
        ensures
            r is Some <==> code != 0,
            r matches Some(e) ==> e@ == code,
    {
        if code == 0 {
            None
        } else {
            Some(ErrorCode { code })
        }
    }

    /// The flag value of this code (never zero).
    pub fn get(&self) -> (r: u8)
        ensures
            r == self@,
            r != 0,
    {
        proof {
            use_type_invariant(self);
        }
        self.code
    }
}

/// This trait specifies the functions needed for a standard (non-aggregate) UDF
///
/// Implement this on a struct that carries data between calls to `init`,
/// `process`, `clear`, `add`, and `remove`.
///
/// - `init(...)` performs setup and validates arguments
/// - `process(...)` creates a result from those arguments
pub trait BasicUdf: Sized {
    /// The return type of the UDF function: `i64`, `f64` (as its bits, see
    /// [`crate::sql_types::SqlResult`]), their `Option`s, or a string type
    /// (possibly in an `Option`).
    type Returns<'a> where Self: 'a;

    /// The initialization function: check argument count and types, request
    /// coercions, configure the result. An error message is returned to the
    /// server (truncated to `MYSQL_ERRMSG_SIZE - 1` bytes).
    fn init(cfg: &mut UdfCfg<Init>, args: &mut ArgList<Init>) -> Result<Self, String>;

    /// Process the actual values and return a result. `error` is the current
    /// aggregate error, if any.
    fn process<'a>(
        &'a mut self,
        cfg: &mut UdfCfg<Process>,
        args: &ArgList<Process>,
        error: Option<ErrorCode>,
    ) -> Result<Self::Returns<'a>, ProcessError>;
}

/// This trait must be implemented if this function performs aggregation.
///
/// - `clear` is called once per group within the result set
/// - `add` is called once per row in the group
/// - `process` is called at the end of each group
/// - `remove` (MariaDB window functions) removes a row from the group
pub trait AggregateUdf: BasicUdf {
    /// Reset the struct at the beginning of a group. `error` is the error of
    /// the previous group; return `Ok(())` to clear it.
    fn clear(&mut self, cfg: &mut UdfCfg<Process>, error: Option<ErrorCode>) -> Result<(), ErrorCode>;

    /// Add the current row to the aggregate.
    fn add(&mut self, cfg: &mut UdfCfg<Process>, args: &ArgList<Process>, error: Option<ErrorCode>) -> Result<
        (),
        ErrorCode,
    >;

    /// Remove a row from the current set (window functions). The default
    /// does nothing.
    fn remove(
        &mut self,
        cfg: &mut UdfCfg<Process>,
        args: &ArgList<Process>,
        error: Option<ErrorCode>,
    ) -> (r: Result<(), ErrorCode>)
        default_ensures
            r is Ok,
    {
        Ok(())
    }
}

} // verus!
