use pipewire_core::result::SpaResult;

#[test]
fn ok_round_trip() {
    for v in [0, 1, 42, (1 << 30) - 1] {
        let r = SpaResult::new_ok(v);
        assert!(r.is_ok());
        assert!(!r.is_async());
        assert!(!r.is_err());
        assert_eq!(v, r.unwrap_ok());
        assert_eq!(v, r.into_raw());
        assert_eq!(v, r.into_sync_result().unwrap());
    }
}

#[test]
fn async_round_trip() {
    for s in [0, 7, (1 << 30) - 1] {
        let r = SpaResult::new_async(s);
        assert!(r.is_async());
        assert!(!r.is_ok());
        assert!(!r.is_err());
        assert_eq!(s, r.unwrap_async());
        assert_eq!(s | (1 << 30), r.into_raw());
        assert_eq!(s, r.into_async_result().unwrap());
    }
}

#[test]
fn async_raw_value_is_exact() {
    assert_eq!(0x4000_0005, SpaResult::new_async(5).into_raw());
    assert_eq!(5, SpaResult::from_raw(0x4000_0005).unwrap_async());
}

#[test]
fn err_round_trip() {
    for c in [1, 2, 22, 95, i32::MAX] {
        let r = SpaResult::new_err(c);
        assert!(r.is_err());
        assert!(!r.is_ok());
        assert!(!r.is_async());
        assert_eq!(-c, r.into_raw());
        assert_eq!(Some(c), r.unwrap_error().raw_os_error());
        assert_eq!(Some(c), r.into_sync_result().unwrap_err().raw_os_error());
        assert_eq!(Some(c), r.into_async_result().unwrap_err().raw_os_error());
    }
}

#[test]
fn raw_values_classify() {
    assert!(SpaResult::from_raw(0).is_ok());
    assert!(SpaResult::from_raw(0x3fff_ffff).is_ok());
    assert!(SpaResult::from_raw(0x4000_0000).is_async());
    assert!(SpaResult::from_raw(i32::MAX).is_async());
    assert!(SpaResult::from_raw(-1).is_err());
    assert!(!SpaResult::from_raw(-1).is_ok());
    assert!(!SpaResult::from_raw(-1).is_async());
}
