//! Byte-level helpers for comparing names and assembling bounded messages.
//!
//! They serve the report of mismatched registration attributes: equality of
//! strings and string lists, and writing pieces of text into a fixed-size
//! buffer, like `copy_from_slice`, with an ellipsis on overflow.

use vstd::prelude::*;
use vstd::string::StringSliceAdditionalSpecFns;
use vstd::utf8::*;

verus! {

broadcast use {encode_utf8_decode_utf8, decode_utf8_encode_utf8};

/// Two strings are equal exactly when their UTF-8 bytes are equal.
pub proof fn lemma_str_eq_iff_bytes_eq(a: &str, b: &str)
    ensures
        (a@ == b@) <==> (a.spec_bytes() == b.spec_bytes()),
{
    if a.spec_bytes() == b.spec_bytes() {
        assert(decode_utf8(encode_utf8(a@)) == a@);
        assert(decode_utf8(encode_utf8(b@)) == b@);
    }
}

/// Compare two strings byte by byte.
pub fn const_str_eq(a: &str, b: &str) -> (r: bool)
    ensures
        r == (a@ == b@),
{
    proof {
        lemma_str_eq_iff_bytes_eq(a, b);
    }
    let ab = a.as_bytes();
    let bb = b.as_bytes();
    if ab.len() != bb.len() {
        return false;
    }
    let mut i: usize = 0;
    while i < ab.len()
        invariant
            ab@ == a.spec_bytes(),
            bb@ == b.spec_bytes(),
            (a@ == b@) <==> (a.spec_bytes() == b.spec_bytes()),
            ab@.len() == bb@.len(),
            0 <= i <= ab@.len(),
            forall|j: int| 0 <= j < i ==> ab@[j] == bb@[j],
        decreases ab@.len() - i,
    {
        if ab[i] != bb[i] {
            return false;
        }
        i += 1;
    }
    assert(ab@ =~= bb@);
    true
}

/// Whether two lists of strings have the same length and equal entries.
pub open spec fn str_lists_equal(a: Seq<&str>, b: Seq<&str>) -> bool {
    &&& a.len() == b.len()
    &&& forall|i: int| 0 <= i < a.len() ==> #[trigger] a[i]@ == #[trigger] b[i]@
}

/// Compare two lists of strings entry by entry.
pub fn const_slice_eq(a: &[&str], b: &[&str]) -> (r: bool)
    ensures
        r == str_lists_equal(a@, b@),
{
    if a.len() != b.len() {
        return false;
    }
    let mut i: usize = 0;
    while i < a.len()
        invariant
            a@.len() == b@.len(),
            0 <= i <= a@.len(),
            forall|j: int| 0 <= j < i ==> #[trigger] a@[j]@ == #[trigger] b@[j]@,
        decreases a@.len() - i,
    {
        if !const_str_eq(a[i], b[i]) {
            return false;
        }
        i += 1;
    }
    true
}

/// `a - b`, or zero when `b > a`.
pub open spec fn saturating_sub(a: int, b: int) -> int {
    if a >= b {
        a - b
    } else {
        0
    }
}

/// Whether `src_len` bytes are copied whole when writing at `start` into a
/// buffer of `dst_len` bytes: they fit in the room from `start` to the end.
pub open spec fn copy_fits(dst_len: int, src_len: int, start: int) -> bool {
    src_len <= dst_len - start
}

/// How many bytes of the source are copied: all of them when they fit,
/// otherwise all but the last four.
pub open spec fn copy_prefix_len(dst_len: int, src_len: int, start: int) -> int {
    if copy_fits(dst_len, src_len, start) {
        src_len
    } else {
        saturating_sub(src_len, 4)
    }
}

/// The copy stays inside the buffer: `start` is in the buffer and the copied
/// prefix ends inside it.
pub open spec fn copy_in_bounds(dst_len: int, src_len: int, start: int) -> bool {
    &&& 0 <= start <= dst_len
    &&& start + copy_prefix_len(dst_len, src_len, start) <= dst_len
}

/// The buffer after copying `src` at `start`: the copied prefix, then, when the
/// source did not fit, `.` up to the end of the buffer.
pub open spec fn copied_buffer(dst: Seq<u8>, src: Seq<u8>, start: int) -> Seq<u8> {
    let n = copy_prefix_len(dst.len() as int, src.len() as int, start);
    let fits = copy_fits(dst.len() as int, src.len() as int, start);
    Seq::new(
        dst.len(),
        |k: int|
            if start <= k < start + n {
                src[k - start]
            } else if !fits && start + n <= k {
                '.' as u8
            } else {
                dst[k]
            },
    )
}

/// The count reported by the copy: the source length when it fit, otherwise
/// everything from `start` to the end of the buffer.
pub open spec fn copied_count(dst_len: int, src_len: int, start: int) -> int {
    if copy_fits(dst_len, src_len, start) {
        src_len
    } else {
        dst_len - start
    }
}

/// Copy `src` into `dst` at `start`, like `copy_from_slice`: a source that
/// fits in the room from `start` to the end is copied whole. When it does not
/// fit, all but its last four bytes are copied and the rest of the buffer is
/// filled with `.`. Returns the number of bytes written.
pub fn arr_copy(dst: &mut [u8], src: &[u8], start: usize) -> (written: usize)
    requires
        copy_in_bounds(old(dst)@.len() as int, src@.len() as int, start as int),
    ensures
        final(dst)@ == copied_buffer(old(dst)@, src@, start as int),
        written == copied_count(old(dst)@.len() as int, src@.len() as int, start as int),
{
    let max_idx = dst.len() - start;
    let (to_write, add_ellipsis) = if src.len() <= max_idx {
        (src.len(), false)
    } else {
        (src.len().saturating_sub(4), true)
    };
    let ghost d0 = dst@;
    assert(d0.len() == dst.len());
    let mut i: usize = 0;
    while i < to_write
        invariant
            dst@.len() == d0.len(),
            d0.len() <= usize::MAX,
            start + to_write <= d0.len(),
            to_write <= src@.len(),
            0 <= i <= to_write,
            forall|k: int| 0 <= k < i ==> dst@[start + k] == src@[k],
            forall|k: int| 0 <= k < d0.len() && !(start <= k < start + i) ==> dst@[k] == d0[k],
        decreases to_write - i,
    {
        dst[i + start] = src[i];
        i += 1;
    }
    if add_ellipsis {
        while i < dst.len() - start
            invariant
                dst@.len() == d0.len(),
                start + to_write <= d0.len(),
                to_write <= src@.len(),
                to_write <= i <= d0.len() - start,
                forall|k: int| 0 <= k < to_write ==> dst@[start + k] == src@[k],
                forall|k: int| start + to_write <= k < start + i ==> dst@[k] == '.' as u8,
                forall|k: int| 0 <= k < start ==> dst@[k] == d0[k],
            decreases d0.len() - start - i,
        {
            dst[i + start] = '.' as u8;
            i += 1;
        }
    }
    assert(dst@ =~= copied_buffer(d0, src@, start as int));
    i
}

/// The UTF-8 bytes of each string in a list.
pub open spec fn pieces_bytes(pieces: Seq<&str>) -> Seq<Seq<u8>> {
    pieces.map_values(|p: &str| p.spec_bytes())
}

/// Whether writing `pieces[i..]` one after another from `offset` keeps every
/// copy inside a buffer of `dst_len` bytes. Writing stops once the buffer is
/// full.
pub open spec fn write_in_bounds(dst_len: int, pieces: Seq<Seq<u8>>, i: int, offset: int) -> bool
    decreases pieces.len() - i,
{
    if i < 0 || i >= pieces.len() || offset >= dst_len {
        true
    } else {
        &&& copy_in_bounds(dst_len, pieces[i].len() as int, offset)
        &&& write_in_bounds(
            dst_len,
            pieces,
            i + 1,
            offset + copied_count(dst_len, pieces[i].len() as int, offset),
        )
    }
}

/// The buffer and final offset after writing `pieces[i..]` one after another
/// from `offset`, stopping once the buffer is full.
pub open spec fn written_pieces(dst: Seq<u8>, pieces: Seq<Seq<u8>>, i: int, offset: int) -> (Seq<
    u8,
>, int)
    decreases pieces.len() - i,
{
    if i < 0 || i >= pieces.len() || offset >= dst.len() {
        (dst, offset)
    } else {
        written_pieces(
            copied_buffer(dst, pieces[i], offset),
            pieces,
            i + 1,
            offset + copied_count(dst.len() as int, pieces[i].len() as int, offset),
        )
    }
}

/// Writing pieces keeps the buffer length and ends at an offset inside it.
pub proof fn lemma_written_pieces_bounds(dst: Seq<u8>, pieces: Seq<Seq<u8>>, i: int, offset: int)
    requires
        0 <= offset <= dst.len(),
        write_in_bounds(dst.len() as int, pieces, i, offset),
    ensures
        written_pieces(dst, pieces, i, offset).0.len() == dst.len(),
        offset <= written_pieces(dst, pieces, i, offset).1 <= dst.len(),
    decreases pieces.len() - i,
{
    if i < 0 || i >= pieces.len() || offset >= dst.len() {
    } else {
        lemma_written_pieces_bounds(
            copied_buffer(dst, pieces[i], offset),
            pieces,
            i + 1,
            offset + copied_count(dst.len() as int, pieces[i].len() as int, offset),
        );
    }
}

/// The bytes of `pieces[i..]`, one after another.
pub open spec fn concat_from(pieces: Seq<Seq<u8>>, i: int) -> Seq<u8>
    decreases pieces.len() - i,
{
    if i < 0 || i >= pieces.len() {
        Seq::empty()
    } else {
        pieces[i] + concat_from(pieces, i + 1)
    }
}

/// Pieces that fit in the room from `offset` to the end of the buffer are
/// written whole, one after another: the buffer then holds their bytes from
/// `offset` on, is unchanged before `offset`, and the write ends right after
/// them.
pub proof fn lemma_written_pieces_whole(dst: Seq<u8>, pieces: Seq<Seq<u8>>, i: int, offset: int)
    requires
        0 <= i,
        0 <= offset,
        offset + concat_from(pieces, i).len() <= dst.len(),
    ensures
        write_in_bounds(dst.len() as int, pieces, i, offset),
        written_pieces(dst, pieces, i, offset).1 == offset + concat_from(pieces, i).len(),
        written_pieces(dst, pieces, i, offset).0.len() == dst.len(),
        written_pieces(dst, pieces, i, offset).0.subrange(
            offset,
            offset + concat_from(pieces, i).len(),
        ) == concat_from(pieces, i),
        written_pieces(dst, pieces, i, offset).0.subrange(0, offset) == dst.subrange(0, offset),
    decreases pieces.len() - i,
{
    if i >= pieces.len() {
        assert(dst.subrange(offset, offset) =~= concat_from(pieces, i));
    } else if offset >= dst.len() {
        assert(dst.subrange(offset, offset) =~= concat_from(pieces, i));
    } else {
        let p = pieces[i];
        let rest = concat_from(pieces, i + 1);
        assert(concat_from(pieces, i) == p + rest);
        let d1 = copied_buffer(dst, p, offset);
        assert(copy_fits(dst.len() as int, p.len() as int, offset));
        let o1 = offset + p.len();
        lemma_written_pieces_whole(d1, pieces, i + 1, o1);
        let w = written_pieces(d1, pieces, i + 1, o1);
        assert(written_pieces(dst, pieces, i, offset) == w);
        assert(w.0.subrange(0, o1).subrange(offset, o1) =~= p) by {
            assert(d1.subrange(0, o1).subrange(offset, o1) =~= p);
        }
        assert(w.0.subrange(offset, offset + concat_from(pieces, i).len()) =~= p + rest) by {
            assert forall|k: int| 0 <= k < p.len() + rest.len() implies w.0.subrange(
                offset,
                offset + p.len() + rest.len(),
            )[k] == (p + rest)[k] by {
                if k < p.len() {
                    assert(w.0.subrange(0, o1)[offset + k] == d1.subrange(0, o1)[offset + k]);
                } else {
                    assert(w.0.subrange(o1, o1 + rest.len())[k - p.len()] == rest[k - p.len()]);
                }
            }
        }
        assert(w.0.subrange(0, offset) =~= dst.subrange(0, offset)) by {
            assert forall|k: int| 0 <= k < offset implies w.0.subrange(0, offset)[k] == dst[k] by {
                assert(w.0.subrange(0, o1)[k] == d1.subrange(0, o1)[k]);
            }
        }
    }
}

/// Whether writing the strings of `pieces` one after another from `start`
/// into a buffer of `dst_len` bytes keeps every copy inside it.
pub fn write_fits(dst_len: usize, pieces: &[&str], start: usize) -> (r: bool)
    requires
        start <= dst_len,
    ensures
        r == write_in_bounds(dst_len as int, pieces_bytes(pieces@), 0, start as int),
{
    let ghost all = pieces_bytes(pieces@);
    let mut offset = start;
    let mut i: usize = 0;
    while i < pieces.len() && offset < dst_len
        invariant
            all == pieces_bytes(pieces@),
            all.len() == pieces@.len(),
            start <= offset <= dst_len,
            0 <= i <= pieces@.len(),
            write_in_bounds(dst_len as int, all, 0, start as int) == write_in_bounds(
                dst_len as int,
                all,
                i as int,
                offset as int,
            ),
        decreases pieces@.len() - i,
    {
        let len = pieces[i].as_bytes().len();
        assert(all[i as int] == pieces@[i as int].spec_bytes());
        assert(len == all[i as int].len());
        let room = dst_len - offset;
        let n = if len <= room {
            len
        } else {
            len.saturating_sub(4)
        };
        if n > dst_len - offset {
            return false;
        }
        offset = if len <= room {
            offset + len
        } else {
            dst_len
        };
        i += 1;
    }
    true
}

/// Write each string of `srcs` into `dst`, one after another, from `start`,
/// until they are all written or the buffer is full. Returns the number of
/// bytes written.
pub fn const_write_all(dst: &mut [u8], srcs: &[&str], start: usize) -> (written: usize)
    requires
        start <= old(dst)@.len(),
        write_in_bounds(old(dst)@.len() as int, pieces_bytes(srcs@), 0, start as int),
    ensures
        final(dst)@ == written_pieces(old(dst)@, pieces_bytes(srcs@), 0, start as int).0,
        start + written == written_pieces(old(dst)@, pieces_bytes(srcs@), 0, start as int).1,
        start + written <= old(dst)@.len(),
{
    proof {
        lemma_written_pieces_bounds(dst@, pieces_bytes(srcs@), 0, start as int);
    }
    let ghost pieces = pieces_bytes(srcs@);
    let ghost d0 = dst@;
    let mut offset = start;
    let mut i: usize = 0;
    while i < srcs.len() && offset < dst.len()
        invariant
            pieces == pieces_bytes(srcs@),
            pieces.len() == srcs@.len(),
            dst@.len() == d0.len(),
            d0.len() == dst.len(),
            start <= offset <= d0.len(),
            0 <= i <= srcs@.len(),
            write_in_bounds(d0.len() as int, pieces, i as int, offset as int),
            written_pieces(d0, pieces, 0, start as int) == written_pieces(
                dst@,
                pieces,
                i as int,
                offset as int,
            ),
        decreases srcs@.len() - i,
    {
        let piece = srcs[i].as_bytes();
        assert(piece@ == pieces[i as int]);
        let n = arr_copy(dst, piece, offset);
        offset += n;
        i += 1;
    }
    offset - start
}

} // verus!
