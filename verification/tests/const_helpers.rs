use udf::const_helpers::{arr_copy, const_slice_eq, const_str_eq, const_write_all};
use udf::text::const_slice_to_str;

#[test]
fn test_arr_copy() {
    let mut x = [0u8; 20];
    let w1 = arr_copy(&mut x, b"foobar", 0);
    let s = const_slice_to_str(x.as_slice(), w1);
    assert_eq!(s, "foobar");

    let w2 = arr_copy(&mut x, b"foobar", w1);
    let s = const_slice_to_str(x.as_slice(), w1 + w2);
    assert_eq!(s, "foobarfoobar");

    let mut x = [0u8; 6];
    let written = arr_copy(&mut x, b"foobar", 0);
    let s = const_slice_to_str(x.as_slice(), written);
    assert_eq!(s, "foobar");

    let mut x = [0u8; 5];
    let written = arr_copy(&mut x, b"foobar", 0);
    let s = const_slice_to_str(x.as_slice(), written);
    assert_eq!(s, "fo...");
}

#[test]
fn test_const_write_all() {
    let mut x = [0u8; 20];
    let w1 = const_write_all(&mut x, &["foo", "bar", "baz"], 0);
    let s = const_slice_to_str(x.as_slice(), w1);
    assert_eq!(s, "foobarbaz");
}

#[test]
fn write_all_truncates_with_ellipsis_and_stops() {
    let mut x = [0u8; 8];
    let w = const_write_all(&mut x, &["abc", "defghijk", "zzz"], 0);
    // "abc" fits; "defghijk" (8) does not fit in the 5 bytes left: "defg" then dots
    assert_eq!(w, 8);
    assert_eq!(&x, b"abcdefg.");
}

#[test]
fn arr_copy_copies_whole_piece_that_fits() {
    // 4 bytes at offset 3 of a 10-byte buffer: the room is 7, they fit
    let mut x = [0u8; 10];
    assert_eq!(arr_copy(&mut x, b"wxyz", 3), 4);
    assert_eq!(&x, b"\0\0\0wxyz\0\0\0");
    // 7 bytes fill the room exactly
    let mut y = [0u8; 10];
    assert_eq!(arr_copy(&mut y, b"tuvwxyz", 3), 7);
    assert_eq!(&y, b"\0\0\0tuvwxyz");
    // 8 bytes do not fit: all but the last four, then dots to the end
    let mut z = [0u8; 10];
    assert_eq!(arr_copy(&mut z, b"abcdefgh", 3), 7);
    assert_eq!(&z, b"\0\0\0abcd...");
}

#[test]
fn str_and_slice_equality() {
    assert!(const_str_eq("foo", "foo"));
    assert!(!const_str_eq("foo", "fob"));
    assert!(!const_str_eq("foo", "fo"));
    assert!(const_str_eq("", ""));
    assert!(const_slice_eq(&["a", "bc"], &["a", "bc"]));
    assert!(!const_slice_eq(&["a", "bc"], &["a", "bd"]));
    assert!(!const_slice_eq(&["a"], &["a", "b"]));
    assert!(const_slice_eq(&[], &[]));
}
