//! The work around each call the server makes into a UDF.
//!
//! The server calls C functions with raw buffers and flags. What those
//! functions decide is here: how the user's results turn into the `error`
//! and `is_null` flags, how a string result is placed in the server's result
//! buffer, and how an initialization error message is written.

use vstd::prelude::*;
use vstd::string::StringSliceAdditionalSpecFns;
use vstd::utf8::encode_utf8;

use crate::arg::ArgList;
use crate::coerce::spec_desired_or_current;
use crate::config::UdfCfg;
use crate::sql_types::type_of_code;
use crate::traits::{AggregateUdf, BasicUdf, ErrorCode, Init, Process, ProcessError};

verus! {

/// Max error message size, 0x200 = 512 bytes
pub const MYSQL_ERRMSG_SIZE: usize = 0x200;

/// Minimum size of a buffer for string results
pub const MYSQL_RESULT_BUFFER_SIZE: usize = 255;

/// How many bytes of a message fit in a buffer of `buf_len` bytes, keeping
/// one for the terminating zero.
pub open spec fn msg_fit_len(msg_len: int, buf_len: int) -> int {
    if msg_len <= buf_len - 1 {
        msg_len
    } else {
        buf_len - 1
    }
}

/// Write a message to a buffer as a zero-terminated string, truncating it so
/// that it and the terminator fit.
pub fn write_msg_to_buf(msg: &[u8], buf: &mut [u8])
    requires
        old(buf)@.len() >= 1,
    ensures
        ({
            let n = msg_fit_len(msg@.len() as int, old(buf)@.len() as int);
            &&& final(buf)@.len() == old(buf)@.len()
            &&& final(buf)@.subrange(0, n) == msg@.subrange(0, n)
            &&& final(buf)@[n] == 0
            &&& final(buf)@.subrange(n + 1, old(buf)@.len() as int) == old(buf)@.subrange(
                n + 1,
                old(buf)@.len() as int,
            )
        }),
{
    let bytes_to_write = if msg.len() <= buf.len() - 1 {
        msg.len()
    } else {
        buf.len() - 1
    };
    let ghost b0 = buf@;
    let mut i: usize = 0;
    while i < bytes_to_write
        invariant
            buf@.len() == b0.len(),
            bytes_to_write < b0.len(),
            bytes_to_write <= msg@.len(),
            0 <= i <= bytes_to_write,
            forall|k: int| 0 <= k < i ==> buf@[k] == msg@[k],
            forall|k: int| i <= k < b0.len() ==> buf@[k] == b0[k],
        decreases bytes_to_write - i,
    {
        buf[i] = msg[i];
        i += 1;
    }
    buf[bytes_to_write] = 0;
    let ghost n = bytes_to_write as int;
    assert(buf@.subrange(0, n) =~= msg@.subrange(0, n));
    assert(buf@.subrange(n + 1, b0.len() as int) =~= b0.subrange(n + 1, b0.len() as int));
}

/// Data that is only relevant to buffer return types: the server's result
/// buffer, the length slot (the buffer's size on entry, the result's length
/// on exit), and whether a reference to the result itself may be returned.
pub struct BufOptions {
    /// The server's result buffer
    pub res_buf: Vec<u8>,
    /// Buffer size on entry; length of the returned data on exit
    pub length: u64,
    /// True if we can return a reference to our source buffer. If false, we
    /// must give up when the result does not fit
    pub can_return_ref: bool,
}

impl BufOptions {
    /// Create a new `BufOptions` struct
    pub fn new(res_buf: Vec<u8>, length: u64, can_return_ref: bool) -> (r: Self)
        ensures
            r.res_buf@ == res_buf@,
            r.length == length,
            r.can_return_ref == can_return_ref,
    {
        Self { res_buf, length, can_return_ref }
    }
}

/// Where the data of a string result is.
#[derive(Debug, Clone, Copy, PartialEq, Eq, Structural)]
pub enum BufTarget {
    /// Copied to the start of the server's result buffer
    ResultBuffer,
    /// Left where it is: the result's own bytes are returned
    Source,
}

/// Handle the result of SQL function that returns a buffer
///
/// - If the slice fits in the buffer (the length slot on entry): copy it to
///   the buffer and return the buffer
/// - If it does not fit and returning references is permitted: return the
///   source slice
/// - If it does not fit and returning references is not permitted: set the
///   length to zero and return `None`
///
/// In all cases that return something, the length slot ends up holding the
/// slice's length.
pub fn buf_result_callback(input: &[u8], opts: &mut BufOptions) -> (r: Option<BufTarget>)
    requires
        old(opts).length <= old(opts).res_buf@.len(),
    ensures
        final(opts).can_return_ref == old(opts).can_return_ref,
        final(opts).res_buf@.len() == old(opts).res_buf@.len(),
        input@.len() <= old(opts).length ==> {
            &&& r == Some(BufTarget::ResultBuffer)
            &&& final(opts).length == input@.len()
            &&& final(opts).res_buf@ == input@ + old(opts).res_buf@.subrange(
                input@.len() as int,
                old(opts).res_buf@.len() as int,
            )
        },
        input@.len() > old(opts).length && old(opts).can_return_ref ==> {
            &&& r == Some(BufTarget::Source)
            &&& final(opts).length == input@.len()
            &&& final(opts).res_buf@ == old(opts).res_buf@
        },
        input@.len() > old(opts).length && !old(opts).can_return_ref ==> {
            &&& r is None
            &&& final(opts).length == 0
            &&& final(opts).res_buf@ == old(opts).res_buf@
        },
{
    let slice_len = input.len();
    let buf_len = opts.length;
    if (slice_len as u64) <= buf_len {
        let ghost b0 = opts.res_buf@;
        let ghost c0 = opts.can_return_ref;
        let mut i: usize = 0;
        while i < slice_len
            invariant
                opts.can_return_ref == c0,
                opts.res_buf@.len() == b0.len(),
                slice_len == input@.len(),
                slice_len <= b0.len(),
                0 <= i <= slice_len,
                forall|k: int| 0 <= k < i ==> opts.res_buf@[k] == input@[k],
                forall|k: int| i <= k < b0.len() ==> opts.res_buf@[k] == b0[k],
            decreases slice_len - i,
        {
            opts.res_buf.set(i, input[i]);
            i += 1;
        }
        opts.length = slice_len as u64;
        assert(opts.res_buf@ =~= input@ + b0.subrange(slice_len as int, b0.len() as int));
        return Some(BufTarget::ResultBuffer);
    }
    if !opts.can_return_ref {
        opts.length = 0;
        return None;
    }
    opts.length = slice_len as u64;
    Some(BufTarget::Source)
}

/// The flags and value after a `process` result: on error the error flag is
/// set and nothing is returned; on success the null flag is cleared and the
/// value returned.
pub fn ret_callback<R>(res: Result<R, ProcessError>, error: &mut u8, is_null: &mut u8) -> (r: Option<R>)
    ensures
        match res {
            Ok(v) => r == Some(v) && *final(is_null) == 0 && *final(error) == *old(error),
            Err(_) => r is None && *final(error) == 1 && *final(is_null) == *old(is_null),
        },
{
    match res {
        Ok(val) => {
            *is_null = 0;
            Some(val)
        },
        Err(_) => {
            *error = 1;
            None
        },
    }
}

/// Like [`ret_callback`] for a nullable result: a `None` result sets the null
/// flag and returns nothing.
pub fn ret_callback_option<R>(res: Result<Option<R>, ProcessError>, error: &mut u8, is_null: &mut u8) -> (r: Option<R>)
    ensures
        match res {
            Ok(Some(v)) => r == Some(v) && *final(is_null) == 0 && *final(error) == *old(error),
            Ok(None) => r is None && *final(is_null) == 1 && *final(error) == *old(error),
            Err(_) => r is None && *final(error) == 1 && *final(is_null) == *old(is_null),
        },
{
    match res {
        Ok(None) => {
            *is_null = 1;
            None
        },
        Ok(Some(v)) => ret_callback(Ok(v), error, is_null),
        Err(e) => ret_callback(Err(e), error, is_null),
    }
}

/// Trait to allow interfacing a buffered or plain type: what is stored for
/// the server between calls, from which the user's UDF struct is reached.
pub trait UdfConverter<U>: Sized {
    /// The UDF struct held.
    spec fn held(&self) -> U;

    /// The UDF struct held, mutably.
    fn as_mut_ref(&mut self) -> (r: &mut U)
        ensures
            *r == old(self).held(),
            final(self).held() == *final(r),
    ;

    /// Wrap a UDF struct for storage.
    fn into_storable(source: U) -> (r: Self)
        ensures
            r.held() == source,
    ;
}

/// A wrapper that lets us handle return types when the user returns an
/// allocated buffer (rather than a reference).
#[derive(Debug)]
pub struct BufConverter<U, B> where U: BasicUdf, B: Default {
    udf: U,
    buf: B,
}

impl<U, B> UdfConverter<U> for BufConverter<U, B> where U: BasicUdf, B: Default {
    closed spec fn held(&self) -> U {
        self.udf
    }

    fn as_mut_ref(&mut self) -> (r: &mut U) {
        &mut self.udf
    }

    fn into_storable(source: U) -> (r: Self) {
        Self { udf: source, buf: B::default() }
    }
}

impl<U: BasicUdf> UdfConverter<U> for U {
    open spec fn held(&self) -> U {
        *self
    }

    fn as_mut_ref(&mut self) -> (r: &mut U) {
        self
    }

    fn into_storable(source: U) -> (r: Self) {
        source
    }
}

/// What the server is handed after `init`: the stored UDF on success;
/// otherwise nothing, with the error message written to the message buffer.
pub fn init_result<W: UdfConverter<U>, U: BasicUdf>(res: Result<U, String>, message: &mut [u8]) -> (r:
    Option<W>)
    requires
        old(message)@.len() >= 1,
    ensures
        match res {
            Ok(v) => r matches Some(w) && w.held() == v && final(message)@ == old(message)@,
            Err(e) => r is None && ({
                let bytes = encode_utf8(e@);
                let n = msg_fit_len(bytes.len() as int, old(message)@.len() as int);
                &&& final(message)@.len() == old(message)@.len()
                &&& final(message)@.subrange(0, n) == bytes.subrange(0, n)
                &&& final(message)@[n] == 0
                &&& final(message)@.subrange(n + 1, old(message)@.len() as int) == old(
                    message,
                )@.subrange(n + 1, old(message)@.len() as int)
            }),
        },
{
    match res {
        Ok(v) => Some(W::into_storable(v)),
        Err(e) => {
            write_msg_to_buf(e.as_str().as_bytes(), message);
            None
        },
    }
}

/// What the server is handed after `init` returned `res`: the UDF stored
/// and the message buffer untouched on success; on error nothing stored and
/// the message written, truncated to the buffer with a terminating zero and
/// the rest of the buffer untouched.
pub open spec fn init_outcome<W: UdfConverter<U>, U: BasicUdf>(
    res: Result<U, String>,
    r: Option<W>,
    old_message: Seq<u8>,
    final_message: Seq<u8>,
) -> bool {
    match res {
        Ok(v) => r matches Some(w) && w.held() == v && final_message == old_message,
        Err(e) => r is None && ({
            let bytes = encode_utf8(e@);
            let n = msg_fit_len(bytes.len() as int, old_message.len() as int);
            &&& final_message.len() == old_message.len()
            &&& final_message.subrange(0, n) == bytes.subrange(0, n)
            &&& final_message[n] == 0
            &&& final_message.subrange(n + 1, old_message.len() as int) == old_message.subrange(
                n + 1,
                old_message.len() as int,
            )
        }),
    }
}

/// The argument list `after` is `before` with its requested coercions
/// applied: each type code becomes the requested type (or stays the current
/// type), values, nullability and attributes unchanged.
pub open spec fn coercions_applied(before: ArgList<Init>, after: ArgList<Init>) -> bool {
    &&& after.spec_len() == before.spec_len()
    &&& after.is_flushed()
    &&& forall|i: int|
        0 <= i < before.spec_len() ==> {
            &&& #[trigger] after.arg_type_at(i) == spec_desired_or_current(before.arg_type_at(i))
            &&& after.value_at(i) == before.value_at(i)
            &&& after.maybe_null_at(i) == before.maybe_null_at(i)
            &&& after.attribute_at(i) == before.attribute_at(i)
        }
}

/// Run the user's `init`, apply the coercions it requested, and produce what
/// is stored (or the error message). The message buffer must be
/// `MYSQL_ERRMSG_SIZE` bytes. The configuration is what the user's `init`
/// left, and the arguments are what it left with its coercions applied.
pub fn wrap_init<W: UdfConverter<U>, U: BasicUdf>(
    cfg: &mut UdfCfg<Init>,
    args: &mut ArgList<Init>,
    message: &mut [u8],
) -> (r: Option<W>)
    requires
        old(message)@.len() == MYSQL_ERRMSG_SIZE,
    ensures
        final(message)@.len() == MYSQL_ERRMSG_SIZE,
        forall|i: int|
            0 <= i < final(args).spec_len() ==> type_of_code(#[trigger] final(args).arg_type_at(i) as int) is Some,
        r is Some ==> final(message)@ == old(message)@,
        r is None ==> exists|n: int| 0 <= n < MYSQL_ERRMSG_SIZE && #[trigger] final(message)@[n] == 0,
        exists|c: &mut UdfCfg<Init>, a: &mut ArgList<Init>, res: Result<U, String>|
            {
                &&& *c == *old(cfg)
                &&& *final(c) == *final(cfg)
                &&& *a == *old(args)
                &&& call_ensures(U::init, (c, a), res)
                &&& coercions_applied(*final(a), *final(args))
                &&& init_outcome::<W, U>(res, r, old(message)@, final(message)@)
            },
{
    let init_res = U::init(cfg, args);
    args.flush_all_coercions();
    let r = init_result(init_res, message);
    proof {
        if r is None {
            let e = init_res->Err_0;
            let n = msg_fit_len(encode_utf8(e@).len() as int, MYSQL_ERRMSG_SIZE as int);
            assert(message@[n] == 0);
        }
    }
    r
}

/// Whether `err` is the aggregate error handed to the user for the flag
/// value `flag`: none for zero, else the code `flag`.
pub open spec fn error_arg(err: Option<ErrorCode>, flag: u8) -> bool {
    &&& (err is None <==> flag == 0)
    &&& (err matches Some(e) ==> e@ == flag)
}

/// The aggregate error flag `final_error` as a result of `add`, `clear` or
/// `remove` leaves it: cleared on success, the error's code otherwise.
pub open spec fn aggregate_flag(res: Result<(), ErrorCode>, final_error: u8) -> bool {
    match res {
        Ok(_) => final_error == 0,
        Err(e) => final_error == e@,
    }
}

/// The aggregate error flag after `add`, `clear` or `remove`: the result
/// decides it. An error sets it to its code; success clears it (as the trait
/// documents: "to clear the error, simply return `Ok(())`").
pub fn aggregate_result(res: Result<(), ErrorCode>, error: &mut u8)
    ensures
        match res {
            Ok(_) => *final(error) == 0,
            Err(e) => *final(error) == e@ && *final(error) != 0,
        },
{
    match res {
        Ok(_) => {
            *error = 0;
        },
        Err(e) => {
            *error = e.get();
        },
    }
}

/// Run the user's `add` on the stored UDF with the current error, and update
/// the error flag from its result: the stored UDF and the configuration are
/// what the user's `add` left, called with the arguments and the current
/// error, and the flag is set from what it returned.
pub fn wrap_add<W: UdfConverter<U>, U: AggregateUdf>(
    stored: &mut W,
    cfg: &mut UdfCfg<Process>,
    args: &ArgList<Process>,
    error: &mut u8,
)
    ensures
        exists|m: &mut U, c: &mut UdfCfg<Process>, err: Option<ErrorCode>, res: Result<(), ErrorCode>|
            {
                &&& *m == old(stored).held()
                &&& *final(m) == final(stored).held()
                &&& *c == *old(cfg)
                &&& *final(c) == *final(cfg)
                &&& error_arg(err, *old(error))
                &&& call_ensures(U::add, (m, c, args, err), res)
                &&& aggregate_flag(res, *final(error))
            },
{
    let err = ErrorCode::new(*error);
    let res = U::add(stored.as_mut_ref(), cfg, args, err);
    aggregate_result(res, error);
}

/// Run the user's `clear` on the stored UDF with the current error, and
/// update the error flag from its result: the stored UDF and the
/// configuration are what the user's `clear` left, called with the current
/// error, and the flag is set from what it returned.
pub fn wrap_clear<W: UdfConverter<U>, U: AggregateUdf>(
    stored: &mut W,
    cfg: &mut UdfCfg<Process>,
    error: &mut u8,
)
    ensures
        exists|m: &mut U, c: &mut UdfCfg<Process>, err: Option<ErrorCode>, res: Result<(), ErrorCode>|
            {
                &&& *m == old(stored).held()
                &&& *final(m) == final(stored).held()
                &&& *c == *old(cfg)
                &&& *final(c) == *final(cfg)
                &&& error_arg(err, *old(error))
                &&& call_ensures(U::clear, (m, c, err), res)
                &&& aggregate_flag(res, *final(error))
            },
{
    let err = ErrorCode::new(*error);
    let res = U::clear(stored.as_mut_ref(), cfg, err);
    aggregate_result(res, error);
}

/// Run the user's `remove` on the stored UDF with the current error, and
/// update the error flag from its result: the stored UDF and the
/// configuration are what the user's `remove` left, called with the
/// arguments and the current error, and the flag is set from what it
/// returned.
pub fn wrap_remove<W: UdfConverter<U>, U: AggregateUdf>(
    stored: &mut W,
    cfg: &mut UdfCfg<Process>,
    args: &ArgList<Process>,
    error: &mut u8,
)
    ensures
        exists|m: &mut U, c: &mut UdfCfg<Process>, err: Option<ErrorCode>, res: Result<(), ErrorCode>|
            {
                &&& *m == old(stored).held()
                &&& *final(m) == final(stored).held()
                &&& *c == *old(cfg)
                &&& *final(c) == *final(cfg)
                &&& error_arg(err, *old(error))
                &&& call_ensures(U::remove, (m, c, args, err), res)
                &&& aggregate_flag(res, *final(error))
            },
{
    let err = ErrorCode::new(*error);
    let res = U::remove(stored.as_mut_ref(), cfg, args, err);
    aggregate_result(res, error);
}

/// The value handed to the server after a `process` result of an integer
/// or real UDF, with the flags set as [`ret_callback`] sets them: on success
/// the result itself; on error the default value.
pub fn process_value<R: Default>(res: Result<R, ProcessError>, error: &mut u8, is_null: &mut u8) -> (r: R)
    ensures
        match res {
            Ok(v) => r == v && *final(is_null) == 0 && *final(error) == *old(error),
            Err(_) => *final(error) == 1 && *final(is_null) == *old(is_null),
        },
{
    match ret_callback(res, error, is_null) {
        Some(v) => v,
        None => R::default(),
    }
}

/// The value handed to the server after a `process` result of a nullable
/// integer or real UDF, with the flags set as [`ret_callback_option`] sets
/// them: a present result itself; the default value for `NULL` or an error.
pub fn process_value_option<R: Default>(
    res: Result<Option<R>, ProcessError>,
    error: &mut u8,
    is_null: &mut u8,
) -> (r: R)
    ensures
        match res {
            Ok(Some(v)) => r == v && *final(is_null) == 0 && *final(error) == *old(error),
            Ok(None) => *final(is_null) == 1 && *final(error) == *old(error),
            Err(_) => *final(error) == 1 && *final(is_null) == *old(is_null),
        },
{
    match ret_callback_option(res, error, is_null) {
        Some(v) => v,
        None => R::default(),
    }
}

/// Apply the `process` function for any implementation returning a nonbuffer
/// type (`i64`, or a real as the bits of an `f64`). On error the error flag
/// is set and the default value returned; otherwise the null flag is cleared.
pub fn wrap_process_basic<W, U, R>(
    stored: &mut W,
    cfg: &mut UdfCfg<Process>,
    args: &ArgList<Process>,
    is_null: &mut u8,
    error: &mut u8,
) -> (r: R) where W: UdfConverter<U>, U: 'static, for <'a>U: BasicUdf<Returns<'a> = R>, R: Default
    ensures
        *final(error) == 1 && *final(is_null) == *old(is_null) || *final(is_null) == 0
            && *final(error) == *old(error),
        exists|m: &mut U, c: &mut UdfCfg<Process>, err: Option<ErrorCode>, res: Result<R, ProcessError>|
            {
                &&& *m == old(stored).held()
                &&& *final(m) == final(stored).held()
                &&& *c == *old(cfg)
                &&& *final(c) == *final(cfg)
                &&& error_arg(err, *old(error))
                &&& call_ensures(U::process, (m, c, args, err), res)
                &&& match res {
                    Ok(v) => r == v && *final(is_null) == 0 && *final(error) == *old(error),
                    Err(_) => *final(error) == 1 && *final(is_null) == *old(is_null),
                }
            },
{
    let err = ErrorCode::new(*error);
    let proc_res = U::process(stored.as_mut_ref(), cfg, args, err);
    process_value(proc_res, error, is_null)
}

/// Apply the `process` function for any implementation returning an optional
/// nonbuffer type. A `None` result sets the null flag; an error sets the
/// error flag; either returns the default value.
pub fn wrap_process_basic_option<W, U, R>(
    stored: &mut W,
    cfg: &mut UdfCfg<Process>,
    args: &ArgList<Process>,
    is_null: &mut u8,
    error: &mut u8,
) -> (r: R) where
    W: UdfConverter<U>,
    U: 'static,
    for <'a>U: BasicUdf<Returns<'a> = Option<R>>,
    R: Default,

    ensures
        *final(error) == 1 && *final(is_null) == *old(is_null) || (*final(is_null) == 0
            || *final(is_null) == 1) && *final(error) == *old(error),
        exists|m: &mut U, c: &mut UdfCfg<Process>, err: Option<ErrorCode>, res: Result<Option<R>, ProcessError>|
            {
                &&& *m == old(stored).held()
                &&& *final(m) == final(stored).held()
                &&& *c == *old(cfg)
                &&& *final(c) == *final(cfg)
                &&& error_arg(err, *old(error))
                &&& call_ensures(U::process, (m, c, args, err), res)
                &&& match res {
                    Ok(Some(v)) => r == v && *final(is_null) == 0 && *final(error) == *old(error),
                    Ok(None) => *final(is_null) == 1 && *final(error) == *old(error),
                    Err(_) => *final(error) == 1 && *final(is_null) == *old(is_null),
                }
            },
{
    let err = ErrorCode::new(*error);
    let proc_res = U::process(stored.as_mut_ref(), cfg, args, err);
    process_value_option(proc_res, error, is_null)
}

/// A string-like result whose bytes are handed to the server.
pub trait ResultBytes {
    /// The bytes of the result.
    spec fn spec_result_bytes(&self) -> Seq<u8>;

    /// The bytes of the result.
    fn result_bytes(&self) -> (r: &[u8])
        ensures
            r@ == self.spec_result_bytes(),
    ;
}

impl ResultBytes for String {
    open spec fn spec_result_bytes(&self) -> Seq<u8> {
        encode_utf8(self@)
    }

    fn result_bytes(&self) -> (r: &[u8]) {
        self.as_str().as_bytes()
    }
}

impl<'s> ResultBytes for &'s str {
    open spec fn spec_result_bytes(&self) -> Seq<u8> {
        self.spec_bytes()
    }

    fn result_bytes(&self) -> (r: &[u8]) {
        self.as_bytes()
    }
}

impl<'s> ResultBytes for &'s String {
    open spec fn spec_result_bytes(&self) -> Seq<u8> {
        encode_utf8(self@)
    }

    fn result_bytes(&self) -> (r: &[u8]) {
        self.as_str().as_bytes()
    }
}

impl ResultBytes for Vec<u8> {
    open spec fn spec_result_bytes(&self) -> Seq<u8> {
        self@
    }

    fn result_bytes(&self) -> (r: &[u8]) {
        self.as_slice()
    }
}

impl<'s> ResultBytes for &'s [u8] {
    open spec fn spec_result_bytes(&self) -> Seq<u8> {
        self@
    }

    fn result_bytes(&self) -> (r: &[u8]) {
        self
    }
}

/// Where the data of a string result ends up.
pub enum BufOutcome<R> {
    /// No result: `NULL`, an error, or a result that did not fit
    Null,
    /// The result was copied to the server's result buffer
    ResultBuffer,
    /// The result itself is returned: its bytes must stay alive
    Source(R),
}

/// Place a string `process` result: errors set the error flag; a result is
/// copied to the buffer, returned itself, or (when it fits nowhere) dropped
/// with the error flag set.
pub fn buf_outcome<R: ResultBytes>(
    res: Option<R>,
    opts: &mut BufOptions,
    error: &mut u8,
) -> (r: BufOutcome<R>)
    requires
        old(opts).length <= old(opts).res_buf@.len(),
    ensures
        final(opts).can_return_ref == old(opts).can_return_ref,
        final(opts).res_buf@.len() == old(opts).res_buf@.len(),
        match res {
            None => r is Null && *final(error) == *old(error) && *final(opts) == *old(opts),
            Some(v) => {
                let bytes = v.spec_result_bytes();
                &&& bytes.len() <= old(opts).length ==> {
                    &&& r is ResultBuffer
                    &&& *final(error) == *old(error)
                    &&& final(opts).length == bytes.len()
                    &&& final(opts).res_buf@ == bytes + old(opts).res_buf@.subrange(
                        bytes.len() as int,
                        old(opts).res_buf@.len() as int,
                    )
                }
                &&& bytes.len() > old(opts).length && old(opts).can_return_ref ==> {
                    &&& r == BufOutcome::Source(v)
                    &&& *final(error) == *old(error)
                    &&& final(opts).length == bytes.len()
                    &&& final(opts).res_buf@ == old(opts).res_buf@
                }
                &&& bytes.len() > old(opts).length && !old(opts).can_return_ref ==> {
                    &&& r is Null
                    &&& *final(error) == 1
                    &&& final(opts).length == 0
                    &&& final(opts).res_buf@ == old(opts).res_buf@
                }
            },
        },
{
    match res {
        None => BufOutcome::Null,
        Some(v) => {
            let target = buf_result_callback(v.result_bytes(), opts);
            match target {
                Some(BufTarget::ResultBuffer) => BufOutcome::ResultBuffer,
                Some(BufTarget::Source) => BufOutcome::Source(v),
                None => {
                    *error = 1;
                    BufOutcome::Null
                },
            }
        },
    }
}

/// What a string `process` call leaves behind, whatever the user's
/// `process` returned:
/// - `NULL` comes from an error (error flag set; null flag, buffer and length
///   unchanged), from a `None` result where `nullable` (null flag set; error
///   flag, buffer and length unchanged), or from a result that did not fit
///   where references may not be returned (error flag set, null flag cleared,
///   length zero, buffer unchanged);
/// - a result copied to the buffer clears the null flag, keeps the error
///   flag, does not grow the length and keeps the buffer after it;
/// - a result returned itself clears the null flag, keeps the error flag and
///   the buffer, and sets the length to its byte length, which exceeded the
///   length slot; references may be returned.
pub open spec fn buf_call_outcome<R: ResultBytes>(
    r: BufOutcome<R>,
    old_opts: BufOptions,
    final_opts: BufOptions,
    old_error: u8,
    final_error: u8,
    old_null: u8,
    final_null: u8,
    nullable: bool,
) -> bool {
    &&& final_opts.can_return_ref == old_opts.can_return_ref
    &&& final_opts.res_buf@.len() == old_opts.res_buf@.len()
    &&& match r {
        BufOutcome::Null => {
            ||| final_error == 1 && final_null == old_null && final_opts == old_opts
            ||| nullable && final_null == 1 && final_error == old_error && final_opts == old_opts
            ||| final_error == 1 && final_null == 0 && !old_opts.can_return_ref && final_opts.length == 0
                && final_opts.res_buf@ == old_opts.res_buf@
        },
        BufOutcome::ResultBuffer => {
            &&& final_null == 0
            &&& final_error == old_error
            &&& final_opts.length <= old_opts.length
            &&& final_opts.res_buf@.subrange(final_opts.length as int, old_opts.res_buf@.len() as int)
                == old_opts.res_buf@.subrange(final_opts.length as int, old_opts.res_buf@.len() as int)
        },
        BufOutcome::Source(v) => {
            &&& final_null == 0
            &&& final_error == old_error
            &&& old_opts.can_return_ref
            &&& final_opts.length == v.spec_result_bytes().len()
            &&& v.spec_result_bytes().len() > old_opts.length
            &&& final_opts.res_buf@ == old_opts.res_buf@
        },
    }
}

/// Where a present string result `v` ends up, and the buffer and error flag
/// after: its bytes are copied to the start of the result buffer when they
/// fit the length slot (which then holds their length); otherwise the
/// result itself is returned when references may be returned (the length
/// slot holds its length); otherwise nothing is returned, the length is zero
/// and the error flag is set.
pub open spec fn present_placed<R: ResultBytes>(
    v: R,
    r: BufOutcome<R>,
    old_opts: BufOptions,
    final_opts: BufOptions,
    old_error: u8,
    final_error: u8,
) -> bool {
    let bytes = v.spec_result_bytes();
    &&& final_opts.can_return_ref == old_opts.can_return_ref
    &&& final_opts.res_buf@.len() == old_opts.res_buf@.len()
    &&& bytes.len() <= old_opts.length ==> {
        &&& r is ResultBuffer
        &&& final_error == old_error
        &&& final_opts.length == bytes.len()
        &&& final_opts.res_buf@ == bytes + old_opts.res_buf@.subrange(
            bytes.len() as int,
            old_opts.res_buf@.len() as int,
        )
    }
    &&& bytes.len() > old_opts.length && old_opts.can_return_ref ==> {
        &&& r == BufOutcome::Source(v)
        &&& final_error == old_error
        &&& final_opts.length == bytes.len()
        &&& final_opts.res_buf@ == old_opts.res_buf@
    }
    &&& bytes.len() > old_opts.length && !old_opts.can_return_ref ==> {
        &&& r is Null
        &&& final_error == 1
        &&& final_opts.length == 0
        &&& final_opts.res_buf@ == old_opts.res_buf@
    }
}

/// What the server reads of a copied result is the result: when a present
/// result is placed in the result buffer, the buffer's first `length` bytes
/// are exactly the result's bytes.
pub proof fn law_copied_result_reads_back<R: ResultBytes>(
    v: R,
    r: BufOutcome<R>,
    old_opts: BufOptions,
    final_opts: BufOptions,
    old_error: u8,
    final_error: u8,
)
    requires
        present_placed(v, r, old_opts, final_opts, old_error, final_error),
        old_opts.length <= old_opts.res_buf@.len(),
        r is ResultBuffer,
    ensures
        final_opts.length == v.spec_result_bytes().len(),
        final_opts.res_buf@.take(final_opts.length as int) == v.spec_result_bytes(),
{
    let bytes = v.spec_result_bytes();
    if bytes.len() > old_opts.length {
        assert(!(r is ResultBuffer));
    }
    assert(final_opts.res_buf@.take(final_opts.length as int) =~= bytes);
}

/// Apply the `process` function for any implementation returning a buffer
/// type (`String`, `Vec<u8>`, `&str`, `&[u8]`, `&String`).
pub fn wrap_process_buf<'b, W, U>(
    stored: &'b mut W,
    cfg: &mut UdfCfg<Process>,
    args: &ArgList<Process>,
    opts: &mut BufOptions,
    is_null: &mut u8,
    error: &mut u8,
) -> (r: BufOutcome<U::Returns<'b>>) where
    W: UdfConverter<U>,
    U: BasicUdf + 'static,
    for <'a>U::Returns<'a>: ResultBytes,

    requires
        old(opts).length <= old(opts).res_buf@.len(),
    ensures
        buf_call_outcome(r, *old(opts), *final(opts), *old(error), *final(error), *old(is_null), *final(is_null), false),
        exists|m: &mut U, c: &mut UdfCfg<Process>, err: Option<ErrorCode>, res: Result<U::Returns<'b>, ProcessError>|
            {
                &&& *m == old(stored).held()
                &&& *final(m) == final(stored).held()
                &&& *c == *old(cfg)
                &&& *final(c) == *final(cfg)
                &&& error_arg(err, *old(error))
                &&& call_ensures(U::process, (m, c, args, err), res)
                &&& match res {
                    Ok(v) => *final(is_null) == 0 && present_placed(v, r, *old(opts), *final(opts), *old(error), *final(error)),
                    Err(_) => r is Null && *final(error) == 1 && *final(is_null) == *old(is_null) && *final(opts) == *old(opts),
                }
            },
{
    let err = ErrorCode::new(*error);
    let proc_res = U::process(stored.as_mut_ref(), cfg, args, err);
    let ghost o0 = *opts;
    let post_effects_val = ret_callback(proc_res, error, is_null);
    let r = buf_outcome(post_effects_val, opts, error);
    proof {
        if r is ResultBuffer {
            let bytes = post_effects_val->Some_0.spec_result_bytes();
            assert(opts.res_buf@.subrange(bytes.len() as int, o0.res_buf@.len() as int)
                =~= o0.res_buf@.subrange(bytes.len() as int, o0.res_buf@.len() as int));
        }
    }
    r
}

/// Apply the `process` function for any implementation returning an
/// optional owned buffer type (`Option<String>`, `Option<Vec<u8>>`).
pub fn wrap_process_buf_option<'b, W, U, B>(
    stored: &'b mut W,
    cfg: &mut UdfCfg<Process>,
    args: &ArgList<Process>,
    opts: &mut BufOptions,
    is_null: &mut u8,
    error: &mut u8,
) -> (r: BufOutcome<B>) where
    W: UdfConverter<U>,
    U: 'static,
    for <'a>U: BasicUdf<Returns<'a> = Option<B>>,
    B: ResultBytes,

    requires
        old(opts).length <= old(opts).res_buf@.len(),
    ensures
        buf_call_outcome(r, *old(opts), *final(opts), *old(error), *final(error), *old(is_null), *final(is_null), true),
        exists|m: &mut U, c: &mut UdfCfg<Process>, err: Option<ErrorCode>, res: Result<Option<B>, ProcessError>|
            {
                &&& *m == old(stored).held()
                &&& *final(m) == final(stored).held()
                &&& *c == *old(cfg)
                &&& *final(c) == *final(cfg)
                &&& error_arg(err, *old(error))
                &&& call_ensures(U::process, (m, c, args, err), res)
                &&& match res {
                    Ok(Some(v)) => *final(is_null) == 0 && present_placed(v, r, *old(opts), *final(opts), *old(error), *final(error)),
                    Ok(None) => r is Null && *final(is_null) == 1 && *final(error) == *old(error) && *final(opts) == *old(opts),
                    Err(_) => r is Null && *final(error) == 1 && *final(is_null) == *old(is_null) && *final(opts) == *old(opts),
                }
            },
{
    let err = ErrorCode::new(*error);
    let proc_res = U::process(stored.as_mut_ref(), cfg, args, err);
    let ghost o0 = *opts;
    let post_effects_val = ret_callback_option(proc_res, error, is_null);
    let r = buf_outcome(post_effects_val, opts, error);
    proof {
        if r is ResultBuffer {
            let bytes = post_effects_val->Some_0.spec_result_bytes();
            assert(opts.res_buf@.subrange(bytes.len() as int, o0.res_buf@.len() as int)
                =~= o0.res_buf@.subrange(bytes.len() as int, o0.res_buf@.len() as int));
        }
    }
    r
}

/// Apply the `process` function for any implementation returning an
/// optional borrowed buffer type (`Option<&'a str>`, `Option<&'a [u8]>`).
pub fn wrap_process_buf_option_ref<'b, W, U, T: ?Sized>(
    stored: &'b mut W,
    cfg: &mut UdfCfg<Process>,
    args: &ArgList<Process>,
    opts: &mut BufOptions,
    is_null: &mut u8,
    error: &mut u8,
) -> (r: BufOutcome<&'b T>) where
    W: UdfConverter<U>,
    U: 'static,
    for <'a>U: BasicUdf<Returns<'a> = Option<&'a T>>,
    for <'a>&'a T: ResultBytes,

    requires
        old(opts).length <= old(opts).res_buf@.len(),
    ensures
        buf_call_outcome(r, *old(opts), *final(opts), *old(error), *final(error), *old(is_null), *final(is_null), true),
        exists|m: &mut U, c: &mut UdfCfg<Process>, err: Option<ErrorCode>, res: Result<Option<&'b T>, ProcessError>|
            {
                &&& *m == old(stored).held()
                &&& *final(m) == final(stored).held()
                &&& *c == *old(cfg)
                &&& *final(c) == *final(cfg)
                &&& error_arg(err, *old(error))
                &&& call_ensures(U::process, (m, c, args, err), res)
                &&& match res {
                    Ok(Some(v)) => *final(is_null) == 0 && present_placed(v, r, *old(opts), *final(opts), *old(error), *final(error)),
                    Ok(None) => r is Null && *final(is_null) == 1 && *final(error) == *old(error) && *final(opts) == *old(opts),
                    Err(_) => r is Null && *final(error) == 1 && *final(is_null) == *old(is_null) && *final(opts) == *old(opts),
                }
            },
{
    let err = ErrorCode::new(*error);
    let proc_res = U::process(stored.as_mut_ref(), cfg, args, err);
    let ghost o0 = *opts;
    let post_effects_val = ret_callback_option(proc_res, error, is_null);
    let r = buf_outcome(post_effects_val, opts, error);
    proof {
        if r is ResultBuffer {
            let bytes = post_effects_val->Some_0.spec_result_bytes();
            assert(opts.res_buf@.subrange(bytes.len() as int, o0.res_buf@.len() as int)
                =~= o0.res_buf@.subrange(bytes.len() as int, o0.res_buf@.len() as int));
        }
    }
    r
}

} // verus!
