//! Packing a current argument type and a desired coercion into one `i32`.
//!
//! The server gives each argument a type code in an `int`. To remember a
//! requested coercion without losing the current type, the four bytes of that
//! `int` are used as follows (least significant first):
//!
//! - byte 0: the current type code (a signed byte)
//! - byte 1: the desired type code (a signed byte)
//! - byte 2: unused, kept as it was
//! - byte 3: `0xAA` when a coercion has been requested

use vstd::prelude::*;

verus! {

/// Byte 3 value marking that a coercion is set (`0xAA << 24`).
pub const COERCION_SET: i32 = -1442840576i32;
/// Mask selecting byte 3 (`0xFF << 24`).
pub const COERCION_SET_MASK: i32 = -16777216i32;
/// Mask selecting byte 1, the desired type.
pub const DESIRED_MASK: i32 = 65280i32;
/// Mask selecting byte 0, the current type.
pub const BYTE_MASK: i32 = 255i32;
/// Mask clearing bytes 1 and 3 (`!(COERCION_SET_MASK | DESIRED_MASK)`).
pub const RESET_COERCION_DESIRED_MASK: i32 = 16711935i32;

/// Byte `index` (0 is least significant) of the two's complement form of `value`.
pub open spec fn byte_of(value: i32, index: u32) -> u8 {
    ((value as u32) >> (8 * index)) as u8
}

/// A byte read as a signed (two's complement) number.
pub open spec fn signed_byte(b: u8) -> i32 {
    if b < 128 {
        b as i32
    } else {
        (b as int - 256) as i32
    }
}

/// The marker byte that says a coercion has been requested.
pub open spec fn coercion_marker() -> u8 {
    0xAAu8
}

/// The value that records `desired` as the coercion of `current`: marker in
/// byte 3, byte 2 and the current type kept from `current`, the low byte of
/// `desired` in byte 1.
pub open spec fn spec_set_coercion(current: i32, desired: i32) -> i32 {
    ((0xAAu32 << 24u32) | ((byte_of(current, 2) as u32) << 16u32) | ((byte_of(desired, 0) as u32)
        << 8u32) | (byte_of(current, 0) as u32)) as i32
}

/// Whether `value` carries a requested coercion.
pub open spec fn spec_coercion_is_set(value: i32) -> bool {
    byte_of(value, 3) == coercion_marker()
}

/// The current type held in `value`.
pub open spec fn spec_current_type(value: i32) -> i32 {
    signed_byte(byte_of(value, 0))
}

/// The requested coercion held in `value`, if any.
pub open spec fn spec_coercion(value: i32) -> Option<i32> {
    if spec_coercion_is_set(value) {
        Some(signed_byte(byte_of(value, 1)))
    } else {
        None
    }
}

/// The requested coercion if one is set, otherwise the current type.
pub open spec fn spec_desired_or_current(value: i32) -> i32 {
    match spec_coercion(value) {
        Some(d) => d,
        None => spec_current_type(value),
    }
}

/// Check if a coercion is set.
pub fn coercion_is_set(value: i32) -> (r: bool)
    ensures
        r == spec_coercion_is_set(value),
{
    let r = value & COERCION_SET_MASK == COERCION_SET;
    assert(r == (((value as u32) >> 24u32) as u8 == 0xAAu8)) by (bit_vector)
        requires
            r == (value & -16777216i32 == -1442840576i32),
    ;
    r
}

/// Record `desired` as the requested coercion, keeping the current type of
/// `current`.
pub fn set_coercion(current: i32, desired: i32) -> (r: i32)
    ensures
        r == spec_set_coercion(current, desired),
        byte_of(r, 3) == coercion_marker(),
        byte_of(r, 2) == byte_of(current, 2),
        byte_of(r, 1) == byte_of(desired, 0),
        byte_of(r, 0) == byte_of(current, 0),
{
    let r = RESET_COERCION_DESIRED_MASK & current | COERCION_SET | ((desired & BYTE_MASK) << 8);
    assert({
        &&& ((r as u32) >> 24u32) as u8 == 0xAAu8
        &&& ((r as u32) >> 16u32) as u8 == ((current as u32) >> 16u32) as u8
        &&& ((r as u32) >> 8u32) as u8 == ((desired as u32) >> 0u32) as u8
        &&& ((r as u32) >> 0u32) as u8 == ((current as u32) >> 0u32) as u8
        &&& r == ((0xAAu32 << 24u32) | ((((current as u32) >> 16u32) as u8 as u32) << 16u32) | ((((
        desired as u32) >> 0u32) as u8 as u32) << 8u32) | (((current as u32) >> 0u32) as u8 as u32)) as i32
    }) by (bit_vector)
        requires
            r == 16711935i32 & current | -1442840576i32 | ((desired & 255i32) << 8i32),
    ;
    r
}

/// Get the requested coercion, ignoring the current type.
pub fn get_coercion(value: i32) -> (r: Option<i32>)
    ensures
        r == spec_coercion(value),
{
    if coercion_is_set(value) {
        let d = #[verifier::truncate] (((value & DESIRED_MASK) >> 8) as i8) as i32;
        assert(d == signed_byte(((value as u32) >> 8u32) as u8)) by (bit_vector)
            requires
                d == ((value & 65280i32) >> 8i32) as i8 as i32,
        ;
        Some(d)
    } else {
        None
    }
}

/// Get the current type, ignoring any requested coercion.
pub fn get_current_type(value: i32) -> (r: i32)
    ensures
        r == spec_current_type(value),
{
    let r = #[verifier::truncate] ((value & BYTE_MASK) as i8) as i32;
    assert(r == signed_byte(((value as u32) >> 0u32) as u8)) by (bit_vector)
        requires
            r == (value & 255i32) as i8 as i32,
    ;
    r
}

/// Get the requested coercion if one is set, otherwise the current type.
pub fn get_desired_or_current(value: i32) -> (r: i32)
    ensures
        r == spec_desired_or_current(value),
{
    match get_coercion(value) {
        Some(d) => d,
        None => get_current_type(value),
    }
}

/// Recording a coercion marks the value as coerced, makes the coercion read
/// back as the (sign-extended) low byte of what was asked for, and leaves the
/// current type untouched.
pub proof fn law_set_coercion_roundtrip(current: i32, desired: i32)
    ensures
        spec_coercion_is_set(spec_set_coercion(current, desired)),
        spec_coercion(spec_set_coercion(current, desired)) == Some(
            signed_byte(byte_of(desired, 0)),
        ),
        spec_current_type(spec_set_coercion(current, desired)) == spec_current_type(current),
        spec_desired_or_current(spec_set_coercion(current, desired)) == signed_byte(
            byte_of(desired, 0),
        ),
{
    let s = spec_set_coercion(current, desired);
    assert({
        &&& ((s as u32) >> 24u32) as u8 == 0xAAu8
        &&& ((s as u32) >> 8u32) as u8 == ((desired as u32) >> 0u32) as u8
        &&& ((s as u32) >> 0u32) as u8 == ((current as u32) >> 0u32) as u8
    }) by (bit_vector)
        requires
            s == ((0xAAu32 << 24u32) | ((((current as u32) >> 16u32) as u8 as u32) << 16u32) | (((
            (desired as u32) >> 0u32) as u8 as u32) << 8u32) | (((current as u32) >> 0u32) as u8 as u32)) as i32,
    ;
}

/// A type code that fits in a signed byte reads back as itself: no coercion
/// is set and the current type is the value.
pub proof fn law_plain_type_code(value: i32)
    requires
        -128 <= value < 128,
    ensures
        !spec_coercion_is_set(value),
        spec_coercion(value) == None::<i32>,
        spec_current_type(value) == value,
        spec_desired_or_current(value) == value,
{
    assert({
        &&& ((value as u32) >> 24u32) as u8 != 0xAAu8
        &&& signed_byte(((value as u32) >> 0u32) as u8) == value
    }) by (bit_vector)
        requires
            -128i32 <= value < 128i32,
    ;
}

/// A desired type code that fits in a signed byte is read back exactly, and a
/// current type code that fits in a signed byte is kept exactly.
pub proof fn law_coercion_reads_back(current: i32, desired: i32)
    requires
        -128 <= desired < 128,
    ensures
        spec_coercion(spec_set_coercion(current, desired)) == Some(desired),
        spec_desired_or_current(spec_set_coercion(current, desired)) == desired,
        -128 <= current < 128 ==> spec_current_type(spec_set_coercion(current, desired)) == current,
{
    law_set_coercion_roundtrip(current, desired);
    law_plain_type_code(desired);
    if -128 <= current < 128 {
        law_plain_type_code(current);
    }
}

} // verus!
