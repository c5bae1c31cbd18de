//! UTF-8 decoding of byte buffers.

use vstd::prelude::*;
use vstd::string::StringSliceAdditionalSpecFns;
use vstd::utf8::*;

verus! {

/// Calls `std::str::from_utf8`. Its documentation says that it returns the
/// string slice when the bytes are valid UTF-8 and an error otherwise; the
/// returned slice is the same bytes. The contract claims exactly that, with
/// validity as `vstd`'s `valid_utf8`.
#[verifier::external_body]
pub(crate) fn str_from_utf8(bytes: &[u8]) -> (r: Option<&str>)
    ensures
        r is Some <==> valid_utf8(bytes@),
        r matches Some(s) ==> s.spec_bytes() == bytes@,
{
    std::str::from_utf8(bytes).ok()
}

/// The first `len` bytes of `s` as a string slice. The bytes must be valid
/// UTF-8.
pub fn const_slice_to_str(s: &[u8], len: usize) -> (r: &str)
    requires
        len <= s@.len(),
        valid_utf8(s@.take(len as int)),
    ensures
        r.spec_bytes() == s@.take(len as int),
{
    let (buf, _) = s.split_at(len);
    assert(buf@ == s@.take(len as int));
    match str_from_utf8(buf) {
        Some(v) => v,
        None => {
            proof {
                assert(false);
            }
            ""
        },
    }
}

} // verus!
