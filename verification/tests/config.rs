use udf::config::{CfgValues, MaxLenOptions, UdfCfg};
use udf::mock::MockUdfCfg;
use udf::traits::Init;

#[test]
fn maybe_null() {
    let mut m = MockUdfCfg::new();

    *m.maybe_null() = false;
    assert!(!m.as_init().get_maybe_null());
    *m.maybe_null() = true;
    assert!(m.as_init().get_maybe_null());
}

#[test]
fn decimals() {
    let mut m = MockUdfCfg::new();

    *m.decimals() = 1234;
    assert_eq!(m.as_init().get_decimals(), 1234);
    *m.decimals() = 0;
    assert_eq!(m.as_init().get_decimals(), 0);
    *m.decimals() = 1;
    assert_eq!(m.as_init().get_decimals(), 1);

    m.as_init().set_decimals(4);
    assert_eq!(*m.decimals(), 4);
}

#[test]
fn max_len() {
    let mut m = MockUdfCfg::new();

    *m.max_len() = 1234;
    assert_eq!(m.as_init().get_max_len(), 1234);
    *m.max_len() = 0;
    assert_eq!(m.as_init().get_max_len(), 0);
    *m.max_len() = 1;
    assert_eq!(m.as_init().get_max_len(), 1);
}

#[test]
fn test_const() {
    let mut m = MockUdfCfg::new();

    *m.is_const() = false;
    assert!(!m.as_init().get_is_const());
    *m.is_const() = true;
    assert!(m.as_init().get_is_const());
}

#[test]
fn mock_cfg_shared_between_phases() {
    let mut m = MockUdfCfg::new();
    {
        let cfg = m.as_init();
        cfg.set_max_len(4);
        cfg.set_is_const(true);
        cfg.set_maybe_null(true);
    }
    assert_eq!(*m.max_len(), 4);
    assert_eq!(*m.is_const(), true);
    assert_eq!(*m.decimals(), 0);
    m.as_process().set_decimals(7);
    assert_eq!(*m.decimals(), 7);
    assert_eq!(m.as_init().get_decimals(), 7);
    assert_eq!(m.as_process().get_max_len(), 4);
}

#[test]
fn cfg_values_roundtrip() {
    let v = CfgValues { maybe_null: true, decimals: 3, max_len: 99, is_const: false };
    let mut c: UdfCfg<Init> = UdfCfg::new(v);
    assert_eq!(c.values(), v);
    c.set_max_len(MaxLenOptions::Blob.value());
    assert_eq!(c.get_max_len(), 65536);
}

#[test]
fn max_len_option_values() {
    assert_eq!(MaxLenOptions::IntDefault.value(), 21);
    assert_eq!(MaxLenOptions::RealBase.value(), 13);
    assert_eq!(MaxLenOptions::Blob.value(), 1 << 16);
    assert_eq!(MaxLenOptions::MediumBlob.value(), 1 << 24);
}
