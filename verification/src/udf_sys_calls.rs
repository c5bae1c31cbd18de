//! Calls into the server bindings.

use vstd::prelude::*;

verus! {

/// Calls `udf_sys::Item_result::try_from(i32)` and turns the result back into
/// its code. The bindings' source matches the value against the codes of
/// `Item_result` (`-1` to `4`) and returns that variant, or an error for any
/// other value. The contract claims exactly that: success precisely for
/// `-1..=4`, with the code unchanged. The error's text is not stated.
#[verifier::external_body]
pub(crate) fn item_result_try_from(value: i32) -> (r: Result<i32, String>)
    ensures
        r is Ok <==> -1 <= value <= 4,
        r matches Ok(v) ==> v == value,
{
    udf_sys::Item_result::try_from(value).map(|t| t as i32)
}

} // verus!
