//! Checks that the basic and aggregate registrations of one UDF agree.
//!
//! A UDF that is both basic and aggregate is registered twice; both
//! registrations must give the same name and the same aliases. When they do
//! not, the check produces the error message that reports the mismatch,
//! assembled in a buffer of `MSG_BUF_LEN` bytes. A message that fits the
//! buffer is reported whole ([`law_message_fits_whole`]).
//!
//! A mismatch is reported as `Err` with the message rather than by a
//! panic: the caller decides whether to stop on it, and the UDF entry points
//! panic with the message, which fails the registered UDF.

use vstd::prelude::*;
use vstd::string::StringSliceAdditionalSpecFns;
use vstd::utf8::*;

use crate::const_helpers::{concat_from, lemma_written_pieces_whole, write_fits, const_slice_eq, str_lists_equal, const_str_eq, const_write_all, pieces_bytes, write_in_bounds, written_pieces};
use crate::text::str_from_utf8;

verus! {

broadcast use {encode_utf8_decode_utf8, decode_utf8_encode_utf8};

/// Registration data of a basic UDF.
pub trait RegisteredBasicUdf {
    /// The main function name
    const NAME: &'static str;
    /// Aliases, if any
    const ALIASES: &'static [&'static str];
    /// True if `NAME` comes from the default value for the struct
    const DEFAULT_NAME_USED: bool;
}

/// Registration data of an aggregate UDF; it must agree with the basic one.
pub trait RegisteredAggregateUdf: RegisteredBasicUdf {
    /// The main function name
    const NAME: &'static str;
    /// Aliases, if any
    const ALIASES: &'static [&'static str];
    /// True if `NAME` comes from the default value for the struct
    const DEFAULT_NAME_USED: bool;
}

/// Size of the buffer the mismatch message is assembled in.
pub const MSG_BUF_LEN: usize = 512;

/// Common start of both mismatch messages.
pub const NAME_MSG: &'static str = "`#[register]` on `BasicUdf` and `AggregateUdf` must have the same ";

/// Note added after a name that was derived from the struct name.
pub const DEFAULT_NAME_NOTE: &'static str = " (default from struct name)";

/// What is reported when the assembled message is not valid UTF-8.
pub const UTF8_ERROR_MSG: &'static str = "utf8 error";

/// The pieces of the message reporting different names.
pub open spec fn name_mismatch_pieces<'a>(
    basic_name: &'a str,
    agg_name: &'a str,
    basic_default: bool,
    agg_default: bool,
) -> Seq<&'a str> {
    seq![NAME_MSG, "`name` argument; got `", basic_name, "`"] + (if basic_default {
        seq![DEFAULT_NAME_NOTE]
    } else {
        Seq::empty()
    }) + seq![" and `", agg_name, "`"] + (if agg_default {
        seq![DEFAULT_NAME_NOTE]
    } else {
        Seq::empty()
    })
}

/// The pieces listing aliases: each one in backticks, separated by `, `.
pub open spec fn alias_list_pieces<'a>(aliases: Seq<&'a str>) -> Seq<&'a str>
    decreases aliases.len(),
{
    if aliases.len() == 0 {
        Seq::empty()
    } else {
        alias_list_pieces(aliases.drop_last()) + (if aliases.len() > 1 {
            seq![", "]
        } else {
            Seq::empty()
        }) + seq!["`", aliases.last(), "`"]
    }
}

/// The pieces of the message reporting different aliases.
pub open spec fn alias_mismatch_pieces<'a>(
    basic_aliases: Seq<&'a str>,
    agg_aliases: Seq<&'a str>,
) -> Seq<&'a str> {
    seq![NAME_MSG, "`alias` arguments; got ["] + alias_list_pieces(basic_aliases) + seq![
        "] and [",
    ] + alias_list_pieces(agg_aliases) + seq!["]"]
}

/// A zeroed message buffer.
pub open spec fn empty_msg_buf() -> Seq<u8> {
    Seq::new(MSG_BUF_LEN as nat, |i: int| 0u8)
}

/// Whether the pieces can be written into the message buffer without a copy
/// leaving it.
pub open spec fn message_in_bounds(pieces: Seq<&str>) -> bool {
    write_in_bounds(MSG_BUF_LEN as int, pieces_bytes(pieces), 0, 0)
}

/// The bytes of the message assembled from the pieces (truncated with `.`
/// when the buffer is full).
pub open spec fn message_bytes(pieces: Seq<&str>) -> Seq<u8> {
    let w = written_pieces(empty_msg_buf(), pieces_bytes(pieces), 0, 0);
    w.0.take(w.1)
}

/// The text reported for assembled message bytes: the message itself when it
/// is valid UTF-8, otherwise the UTF-8 error.
pub open spec fn reported_text(bytes: Seq<u8>) -> Seq<char> {
    if valid_utf8(bytes) {
        decode_utf8(bytes)
    } else {
        UTF8_ERROR_MSG@
    }
}

/// The text of `pieces[i..]`, one after another.
pub open spec fn concat_text(pieces: Seq<&str>, i: int) -> Seq<char>
    decreases pieces.len() - i,
{
    if i < 0 || i >= pieces.len() {
        Seq::empty()
    } else {
        pieces[i]@ + concat_text(pieces, i + 1)
    }
}

/// The whole message made of the pieces.
pub open spec fn full_message(pieces: Seq<&str>) -> Seq<char> {
    concat_text(pieces, 0)
}

/// Whether the whole message fits the message buffer.
pub open spec fn message_fits(pieces: Seq<&str>) -> bool {
    encode_utf8(full_message(pieces)).len() <= MSG_BUF_LEN
}

/// The UTF-8 bytes of two texts one after the other are the bytes of each.
proof fn lemma_encode_utf8_append(a: Seq<char>, b: Seq<char>)
    ensures
        encode_utf8(a + b) == encode_utf8(a) + encode_utf8(b),
    decreases a.len(),
{
    if a.len() == 0 {
        assert(a + b =~= b);
        assert(encode_utf8(a) =~= Seq::<u8>::empty());
        assert(encode_utf8(a) + encode_utf8(b) =~= encode_utf8(b));
    } else {
        assert((a + b).drop_first() =~= a.drop_first() + b);
        assert((a + b)[0] == a[0]);
        lemma_encode_utf8_append(a.drop_first(), b);
        assert(encode_utf8(a + b) =~= encode_utf8(a) + encode_utf8(b));
    }
}

/// The bytes of the pieces one after another are the bytes of their text.
proof fn lemma_concat_bytes(pieces: Seq<&str>, i: int)
    requires
        0 <= i,
    ensures
        concat_from(pieces_bytes(pieces), i) == encode_utf8(concat_text(pieces, i)),
    decreases pieces.len() - i,
{
    if i >= pieces.len() {
        assert(encode_utf8(concat_text(pieces, i)) =~= Seq::<u8>::empty());
    } else {
        lemma_concat_bytes(pieces, i + 1);
        lemma_encode_utf8_append(pieces[i]@, concat_text(pieces, i + 1));
        assert(pieces_bytes(pieces)[i] == pieces[i].spec_bytes());
    }
}

/// A message that fits the buffer is assembled whole: every piece is copied
/// in full, one after another, and the reported text is the whole message.
pub proof fn law_message_fits_whole(pieces: Seq<&str>)
    requires
        message_fits(pieces),
    ensures
        message_in_bounds(pieces),
        message_bytes(pieces) == encode_utf8(full_message(pieces)),
        reported_text(message_bytes(pieces)) == full_message(pieces),
{
    let pb = pieces_bytes(pieces);
    lemma_concat_bytes(pieces, 0);
    lemma_written_pieces_whole(empty_msg_buf(), pb, 0, 0);
    let w = written_pieces(empty_msg_buf(), pb, 0, 0);
    assert(w.0.take(w.1) =~= w.0.subrange(0, concat_from(pb, 0).len() as int));
    encode_utf8_valid_utf8(full_message(pieces));
}

/// Assemble the pieces into the message buffer and return the reported text.
fn assemble_message(pieces: &Vec<&str>) -> (msg: String)
    requires
        message_in_bounds(pieces@),
    ensures
        msg@ == reported_text(message_bytes(pieces@)),
{
    let mut msg_buf = [0u8; 512];
    assert(msg_buf@ =~= empty_msg_buf());
    let curs = const_write_all(&mut msg_buf, pieces.as_slice(), 0);
    let (bytes, _) = msg_buf.as_slice().split_at(curs);
    assert(bytes@ == message_bytes(pieces@));
    match str_from_utf8(bytes) {
        Some(s) => {
            proof {
                assert(decode_utf8(encode_utf8(s@)) == s@);
            }
            s.to_owned()
        },
        None => UTF8_ERROR_MSG.to_owned(),
    }
}

/// Check that the basic and aggregate names agree; when they do not, return
/// the message reporting both (with a note on each name that was derived
/// from the struct name).
pub fn check_names<'a>(
    basic_name: &'a str,
    agg_name: &'a str,
    basic_default: bool,
    agg_default: bool,
) -> (r: Result<(), String>)
    requires
        basic_name@ != agg_name@ ==> message_in_bounds(
            name_mismatch_pieces(basic_name, agg_name, basic_default, agg_default),
        ),
    ensures
        r is Ok <==> basic_name@ == agg_name@,
        r matches Err(m) ==> m@ == reported_text(
            message_bytes(name_mismatch_pieces(basic_name, agg_name, basic_default, agg_default)),
        ),
        basic_name@ != agg_name@ && message_fits(
            name_mismatch_pieces(basic_name, agg_name, basic_default, agg_default),
        ) ==> (r matches Err(m) && m@ == full_message(
            name_mismatch_pieces(basic_name, agg_name, basic_default, agg_default),
        )),
{
    if const_str_eq(basic_name, agg_name) {
        return Ok(());
    }
    proof {
        if message_fits(name_mismatch_pieces(basic_name, agg_name, basic_default, agg_default)) {
            law_message_fits_whole(name_mismatch_pieces(basic_name, agg_name, basic_default, agg_default));
        }
    }
    let pieces = name_pieces(basic_name, agg_name, basic_default, agg_default);
    Err(assemble_message(&pieces))
}

/// The pieces of the message reporting different names.
fn name_pieces<'a>(
    basic_name: &'a str,
    agg_name: &'a str,
    basic_default: bool,
    agg_default: bool,
) -> (pieces: Vec<&'a str>)
    ensures
        pieces@ == name_mismatch_pieces(basic_name, agg_name, basic_default, agg_default),
{
    let mut pieces: Vec<&'a str> = Vec::new();
    pieces.push(NAME_MSG);
    pieces.push("`name` argument; got `");
    pieces.push(basic_name);
    pieces.push("`");
    if basic_default {
        pieces.push(DEFAULT_NAME_NOTE);
    }
    pieces.push(" and `");
    pieces.push(agg_name);
    pieces.push("`");
    if agg_default {
        pieces.push(DEFAULT_NAME_NOTE);
    }
    assert(pieces@ =~= name_mismatch_pieces(basic_name, agg_name, basic_default, agg_default));
    pieces
}

/// Whether the message reporting different names can be assembled in the
/// message buffer.
pub fn name_message_fits(
    basic_name: &str,
    agg_name: &str,
    basic_default: bool,
    agg_default: bool,
) -> (r: bool)
    ensures
        r == message_in_bounds(
            name_mismatch_pieces(basic_name, agg_name, basic_default, agg_default),
        ),
{
    let pieces = name_pieces(basic_name, agg_name, basic_default, agg_default);
    write_fits(MSG_BUF_LEN, pieces.as_slice(), 0)
}

/// Append the alias list pieces for `aliases` to `pieces`.
fn push_alias_list<'a>(pieces: &mut Vec<&'a str>, aliases: &[&'a str])
    ensures
        final(pieces)@ == old(pieces)@ + alias_list_pieces(aliases@),
{
    let ghost start = pieces@;
    let mut i: usize = 0;
    assert(aliases@.take(0) =~= Seq::<&str>::empty());
    while i < aliases.len()
        invariant
            0 <= i <= aliases@.len(),
            pieces@ == start + alias_list_pieces(aliases@.take(i as int)),
        decreases aliases@.len() - i,
    {
        if i > 0 {
            pieces.push(", ");
        }
        pieces.push("`");
        pieces.push(aliases[i]);
        pieces.push("`");
        proof {
            let next = aliases@.take(i + 1);
            assert(next.drop_last() =~= aliases@.take(i as int));
            assert(next.last() == aliases@[i as int]);
            assert(pieces@ =~= start + alias_list_pieces(next));
        }
        i += 1;
    }
    assert(aliases@.take(aliases@.len() as int) =~= aliases@);
}

/// Check that the basic and aggregate alias lists agree; when they do not,
/// return the message listing both.
pub fn check_aliases<'a>(basic_aliases: &[&'a str], agg_aliases: &[&'a str]) -> (r: Result<
    (),
    String,
>)
    requires
        !str_lists_equal(basic_aliases@, agg_aliases@) ==> message_in_bounds(
            alias_mismatch_pieces(basic_aliases@, agg_aliases@),
        ),
    ensures
        r is Ok <==> str_lists_equal(basic_aliases@, agg_aliases@),
        r matches Err(m) ==> m@ == reported_text(
            message_bytes(alias_mismatch_pieces(basic_aliases@, agg_aliases@)),
        ),
        !str_lists_equal(basic_aliases@, agg_aliases@) && message_fits(
            alias_mismatch_pieces(basic_aliases@, agg_aliases@),
        ) ==> (r matches Err(m) && m@ == full_message(alias_mismatch_pieces(basic_aliases@, agg_aliases@))),
{
    if const_slice_eq(basic_aliases, agg_aliases) {
        return Ok(());
    }
    proof {
        if message_fits(alias_mismatch_pieces(basic_aliases@, agg_aliases@)) {
            law_message_fits_whole(alias_mismatch_pieces(basic_aliases@, agg_aliases@));
        }
    }
    let pieces = alias_pieces(basic_aliases, agg_aliases);
    Err(assemble_message(&pieces))
}

/// The pieces of the message reporting different aliases.
fn alias_pieces<'a>(basic_aliases: &[&'a str], agg_aliases: &[&'a str]) -> (pieces: Vec<&'a str>)
    ensures
        pieces@ == alias_mismatch_pieces(basic_aliases@, agg_aliases@),
{
    let mut pieces: Vec<&'a str> = Vec::new();
    pieces.push(NAME_MSG);
    pieces.push("`alias` arguments; got [");
    push_alias_list(&mut pieces, basic_aliases);
    pieces.push("] and [");
    push_alias_list(&mut pieces, agg_aliases);
    pieces.push("]");
    assert(pieces@ =~= alias_mismatch_pieces(basic_aliases@, agg_aliases@));
    pieces
}

/// Whether the message reporting different aliases can be assembled in the
/// message buffer.
pub fn alias_message_fits(basic_aliases: &[&str], agg_aliases: &[&str]) -> (r: bool)
    ensures
        r == message_in_bounds(alias_mismatch_pieces(basic_aliases@, agg_aliases@)),
{
    let pieces = alias_pieces(basic_aliases, agg_aliases);
    write_fits(MSG_BUF_LEN, pieces.as_slice(), 0)
}

/// The pieces of the message reporting that the two registrations of `T`
/// give different names.
pub open spec fn name_pieces_of<T: RegisteredAggregateUdf>() -> Seq<&'static str> {
    name_mismatch_pieces(
        <T as RegisteredBasicUdf>::NAME,
        <T as RegisteredAggregateUdf>::NAME,
        <T as RegisteredBasicUdf>::DEFAULT_NAME_USED,
        <T as RegisteredAggregateUdf>::DEFAULT_NAME_USED,
    )
}

/// The pieces of the message reporting that the two registrations of `T`
/// give different aliases.
pub open spec fn alias_pieces_of<T: RegisteredAggregateUdf>() -> Seq<&'static str> {
    alias_mismatch_pieces(<T as RegisteredBasicUdf>::ALIASES@, <T as RegisteredAggregateUdf>::ALIASES@)
}

/// Check that the two registrations of `T` give the same name; when they do
/// not, return the message reporting both names.
///
/// A mismatch is returned as `Err` with the message; the caller decides
/// whether to panic with it.
pub fn verify_aggregate_attributes_name<T: RegisteredAggregateUdf>() -> (r: Result<(), String>)
    requires
        <T as RegisteredBasicUdf>::NAME@ != <T as RegisteredAggregateUdf>::NAME@ ==> message_in_bounds(
            name_mismatch_pieces(
                <T as RegisteredBasicUdf>::NAME,
                <T as RegisteredAggregateUdf>::NAME,
                <T as RegisteredBasicUdf>::DEFAULT_NAME_USED,
                <T as RegisteredAggregateUdf>::DEFAULT_NAME_USED,
            ),
        ),
    ensures
        r is Ok <==> <T as RegisteredBasicUdf>::NAME@ == <T as RegisteredAggregateUdf>::NAME@,
        r matches Err(m) ==> m@ == reported_text(
            message_bytes(
                name_mismatch_pieces(
                    <T as RegisteredBasicUdf>::NAME,
                    <T as RegisteredAggregateUdf>::NAME,
                    <T as RegisteredBasicUdf>::DEFAULT_NAME_USED,
                    <T as RegisteredAggregateUdf>::DEFAULT_NAME_USED,
                ),
            ),
        ),
        <T as RegisteredBasicUdf>::NAME@ != <T as RegisteredAggregateUdf>::NAME@ && message_fits(
            name_pieces_of::<T>(),
        ) ==> (r matches Err(m) && m@ == full_message(name_pieces_of::<T>())),
{
    check_names(
        <T as RegisteredBasicUdf>::NAME,
        <T as RegisteredAggregateUdf>::NAME,
        <T as RegisteredBasicUdf>::DEFAULT_NAME_USED,
        <T as RegisteredAggregateUdf>::DEFAULT_NAME_USED,
    )
}

/// Check that the two registrations of `T` give the same aliases; when they
/// do not, return the message listing both.
///
/// A mismatch is returned as `Err` with the message; the caller decides
/// whether to panic with it.
pub fn verify_aggregate_attribute_aliases<T: RegisteredAggregateUdf>() -> (r: Result<(), String>)
    requires
        !str_lists_equal(
            <T as RegisteredBasicUdf>::ALIASES@,
            <T as RegisteredAggregateUdf>::ALIASES@,
        ) ==> message_in_bounds(
            alias_mismatch_pieces(
                <T as RegisteredBasicUdf>::ALIASES@,
                <T as RegisteredAggregateUdf>::ALIASES@,
            ),
        ),
    ensures
        r is Ok <==> str_lists_equal(
            <T as RegisteredBasicUdf>::ALIASES@,
            <T as RegisteredAggregateUdf>::ALIASES@,
        ),
        r matches Err(m) ==> m@ == reported_text(
            message_bytes(
                alias_mismatch_pieces(
                    <T as RegisteredBasicUdf>::ALIASES@,
                    <T as RegisteredAggregateUdf>::ALIASES@,
                ),
            ),
        ),
        !str_lists_equal(<T as RegisteredBasicUdf>::ALIASES@, <T as RegisteredAggregateUdf>::ALIASES@)
            && message_fits(alias_pieces_of::<T>()) ==> (r matches Err(m) && m@ == full_message(
            alias_pieces_of::<T>(),
        )),
{
    check_aliases(<T as RegisteredBasicUdf>::ALIASES, <T as RegisteredAggregateUdf>::ALIASES)
}

/// Enforce that the basic and aggregate registrations of `T` agree: the name
/// is checked first, then the aliases. The first mismatch found is reported.
///
/// A mismatch is returned as `Err` with the message; the caller decides
/// whether to panic with it.
pub fn verify_aggregate_attributes<T: RegisteredAggregateUdf>() -> (r: Result<(), String>)
    requires
        <T as RegisteredBasicUdf>::NAME@ != <T as RegisteredAggregateUdf>::NAME@ ==> message_in_bounds(
            name_mismatch_pieces(
                <T as RegisteredBasicUdf>::NAME,
                <T as RegisteredAggregateUdf>::NAME,
                <T as RegisteredBasicUdf>::DEFAULT_NAME_USED,
                <T as RegisteredAggregateUdf>::DEFAULT_NAME_USED,
            ),
        ),
        <T as RegisteredBasicUdf>::NAME@ == <T as RegisteredAggregateUdf>::NAME@ && !str_lists_equal(
            <T as RegisteredBasicUdf>::ALIASES@,
            <T as RegisteredAggregateUdf>::ALIASES@,
        ) ==> message_in_bounds(
            alias_mismatch_pieces(
                <T as RegisteredBasicUdf>::ALIASES@,
                <T as RegisteredAggregateUdf>::ALIASES@,
            ),
        ),
    ensures
        r is Ok <==> <T as RegisteredBasicUdf>::NAME@ == <T as RegisteredAggregateUdf>::NAME@
            && str_lists_equal(
            <T as RegisteredBasicUdf>::ALIASES@,
            <T as RegisteredAggregateUdf>::ALIASES@,
        ),
        r matches Err(m) ==> m@ == reported_text(
            message_bytes(
                if <T as RegisteredBasicUdf>::NAME@ != <T as RegisteredAggregateUdf>::NAME@ {
                    name_mismatch_pieces(
                        <T as RegisteredBasicUdf>::NAME,
                        <T as RegisteredAggregateUdf>::NAME,
                        <T as RegisteredBasicUdf>::DEFAULT_NAME_USED,
                        <T as RegisteredAggregateUdf>::DEFAULT_NAME_USED,
                    )
                } else {
                    alias_mismatch_pieces(
                        <T as RegisteredBasicUdf>::ALIASES@,
                        <T as RegisteredAggregateUdf>::ALIASES@,
                    )
                },
            ),
        ),
        <T as RegisteredBasicUdf>::NAME@ != <T as RegisteredAggregateUdf>::NAME@ && message_fits(
            name_pieces_of::<T>(),
        ) ==> (r matches Err(m) && m@ == full_message(name_pieces_of::<T>())),
        <T as RegisteredBasicUdf>::NAME@ == <T as RegisteredAggregateUdf>::NAME@ && !str_lists_equal(
            <T as RegisteredBasicUdf>::ALIASES@,
            <T as RegisteredAggregateUdf>::ALIASES@,
        ) && message_fits(alias_pieces_of::<T>()) ==> (r matches Err(m) && m@ == full_message(
            alias_pieces_of::<T>(),
        )),
{
    verify_aggregate_attributes_name::<T>()?;
    verify_aggregate_attribute_aliases::<T>()
}

/// What is reported when the mismatch message cannot be assembled.
pub const TOO_LONG_MSG: &'static str = "registration attributes differ and are too long to report";

/// Whether the mismatch checks of `T` can assemble their messages.
pub open spec fn attributes_reportable<T: RegisteredAggregateUdf>() -> bool {
    &&& <T as RegisteredBasicUdf>::NAME@ != <T as RegisteredAggregateUdf>::NAME@ ==> message_in_bounds(
        name_mismatch_pieces(
            <T as RegisteredBasicUdf>::NAME,
            <T as RegisteredAggregateUdf>::NAME,
            <T as RegisteredBasicUdf>::DEFAULT_NAME_USED,
            <T as RegisteredAggregateUdf>::DEFAULT_NAME_USED,
        ),
    )
    &&& <T as RegisteredBasicUdf>::NAME@ == <T as RegisteredAggregateUdf>::NAME@ && !str_lists_equal(
        <T as RegisteredBasicUdf>::ALIASES@,
        <T as RegisteredAggregateUdf>::ALIASES@,
    ) ==> message_in_bounds(
        alias_mismatch_pieces(
            <T as RegisteredBasicUdf>::ALIASES@,
            <T as RegisteredAggregateUdf>::ALIASES@,
        ),
    )
}

/// Like [`verify_aggregate_attributes`], for any registration: when a
/// mismatch message would not fit the buffer, the mismatch is reported with
/// [`TOO_LONG_MSG`] instead.
pub fn check_aggregate_attributes<T: RegisteredAggregateUdf>() -> (r: Result<(), String>)
    ensures
        r is Ok <==> <T as RegisteredBasicUdf>::NAME@ == <T as RegisteredAggregateUdf>::NAME@
            && str_lists_equal(
            <T as RegisteredBasicUdf>::ALIASES@,
            <T as RegisteredAggregateUdf>::ALIASES@,
        ),
        !attributes_reportable::<T>() ==> (r matches Err(m) && m@ == TOO_LONG_MSG@),
        attributes_reportable::<T>() ==> (r matches Err(m) ==> m@ == reported_text(
            message_bytes(
                if <T as RegisteredBasicUdf>::NAME@ != <T as RegisteredAggregateUdf>::NAME@ {
                    name_mismatch_pieces(
                        <T as RegisteredBasicUdf>::NAME,
                        <T as RegisteredAggregateUdf>::NAME,
                        <T as RegisteredBasicUdf>::DEFAULT_NAME_USED,
                        <T as RegisteredAggregateUdf>::DEFAULT_NAME_USED,
                    )
                } else {
                    alias_mismatch_pieces(
                        <T as RegisteredBasicUdf>::ALIASES@,
                        <T as RegisteredAggregateUdf>::ALIASES@,
                    )
                },
            ),
        )),
{
    let names_equal = const_str_eq(
        <T as RegisteredBasicUdf>::NAME,
        <T as RegisteredAggregateUdf>::NAME,
    );
    let fits = if !names_equal {
        name_message_fits(
            <T as RegisteredBasicUdf>::NAME,
            <T as RegisteredAggregateUdf>::NAME,
            <T as RegisteredBasicUdf>::DEFAULT_NAME_USED,
            <T as RegisteredAggregateUdf>::DEFAULT_NAME_USED,
        )
    } else if !const_slice_eq(<T as RegisteredBasicUdf>::ALIASES, <T as RegisteredAggregateUdf>::ALIASES) {
        alias_message_fits(<T as RegisteredBasicUdf>::ALIASES, <T as RegisteredAggregateUdf>::ALIASES)
    } else {
        true
    };
    if fits {
        verify_aggregate_attributes::<T>()
    } else {
        Err(TOO_LONG_MSG.to_owned())
    }
}

} // verus!
