use udf::coerce::{
    coercion_is_set, get_coercion, get_current_type, get_desired_or_current, set_coercion,
};

const TESTVALS: [i32; 8] = [-10, -5, -1, 0, 1, 5, 10, 20];

#[test]
fn test_unset_coercion() {
    for val in TESTVALS.iter().map(|v| *v) {
        assert_eq!(coercion_is_set(val), false);
        assert_eq!(get_coercion(val), None);
        assert_eq!(get_current_type(val), val);
        assert_eq!(get_desired_or_current(val), val);
    }
}

#[test]
fn test_coercion() {
    for current in TESTVALS.iter().map(|v| *v) {
        for desired in TESTVALS.iter().map(|v| *v) {
            let res = set_coercion(current, desired);

            assert_eq!(coercion_is_set(res), true);
            assert_eq!(get_coercion(res), Some(desired));
            assert_eq!(get_current_type(res), current);
            assert_eq!(get_desired_or_current(res), desired);
        }
    }
}

#[test]
fn coercion_layout_exact_value() {
    // marker 0xAA in byte 3, desired 4 in byte 1, current 2 in byte 0
    assert_eq!(set_coercion(2, 4) as u32, 0xAA00_0402);
    // byte 2 of the current value is kept, its byte 1 and 3 replaced
    assert_eq!(set_coercion(0x0012_3402, 1) as u32, 0xAA12_0102);
}

#[test]
fn coercion_desired_keeps_low_byte_only() {
    // 0x1FF has low byte 0xFF: read back as -1
    let res = set_coercion(0, 0x1FF);
    assert_eq!(get_coercion(res), Some(-1));
    assert_eq!(get_current_type(res), 0);
}

#[test]
fn coercion_recoerce_replaces_desired() {
    let once = set_coercion(2, 0);
    let twice = set_coercion(once, 4);
    assert_eq!(get_coercion(twice), Some(4));
    assert_eq!(get_current_type(twice), 2);
}

#[test]
fn coercion_not_set_for_other_marker() {
    // byte 3 set to something other than the marker
    let v = 0x5500_0402u32 as i32;
    assert!(!coercion_is_set(v));
    assert_eq!(get_coercion(v), None);
    assert_eq!(get_desired_or_current(v), 2);
}
