use device_facade::native;
use device_facade::{AnyDeviceType, AnyOS, BareMetal, Device, Error, Fido, Hsm, Linux, WinDoof};

fn device_record(os: native::DeviceOS, dtype: native::DeviceType, name: &str) -> native::Device {
    native::Device { os, dtype, name: name.to_owned() }
}

fn hsm_record(os: native::DeviceOS, max_slots: usize, name: &str) -> native::HSM {
    native::HSM {
        os,
        dtype: native::DeviceType::HSM,
        max_slots,
        device: device_record(os, native::DeviceType::HSM, name),
    }
}

/// A native library with the given modules: what it answers when asked for
/// the module at `index`, counted from zero.
fn stub_fetch_hsm(
    modules: &[(native::DeviceOS, usize, &str)],
    index: usize,
) -> Result<Option<native::HSM>, String> {
    Ok(modules.get(index).map(|(os, slots, name)| hsm_record(*os, *slots, name)))
}

const THREE: [(native::DeviceOS, usize, &str); 3] = [
    (native::DeviceOS::BareMetal, 2, "hsm-a"),
    (native::DeviceOS::Linux, 4, "hsm-b"),
    (native::DeviceOS::WinDoof, 1, "hsm-c"),
];

#[test]
fn native_index_counts_from_zero() {
    assert!(matches!(Device::native_index(0), Err(Error::InvalidDeviceNum { num: 0 })));
    assert_eq!(Device::native_index(1).unwrap(), 0);
    assert_eq!(Device::native_index(7).unwrap(), 6);
    assert_eq!(Device::native_index(usize::MAX).unwrap(), usize::MAX - 1);
}

#[test]
fn fetch_device_zero_is_invalid() {
    let found = device_record(native::DeviceOS::Linux, native::DeviceType::HSM, "dev");
    let result = Device::fetch_device(0, Ok(Some(found)));
    assert!(matches!(result, Err(Error::InvalidDeviceNum { num: 0 })));
}

#[test]
fn fetch_zero_is_invalid_whatever_was_answered() {
    assert!(matches!(
        Device::fetch_device(0, Ok(None)),
        Err(Error::InvalidDeviceNum { num: 0 })
    ));
    assert!(matches!(
        Device::fetch_device(0, Err("[RUNTIME] boom".to_owned())),
        Err(Error::InvalidDeviceNum { num: 0 })
    ));
    assert!(matches!(
        Device::fetch_hsm(0, stub_fetch_hsm(&THREE, 0)),
        Err(Error::InvalidDeviceNum { num: 0 })
    ));
    assert!(matches!(
        Device::fetch_hsm(0, Err("[STD] boom".to_owned())),
        Err(Error::InvalidDeviceNum { num: 0 })
    ));
    assert!(matches!(
        Device::fetch_hsm_with::<Linux>(0, stub_fetch_hsm(&THREE, 1)),
        Err(Error::InvalidDeviceNum { num: 0 })
    ));
    assert!(matches!(
        Device::fetch_hsm_with::<BareMetal>(0, Ok(None)),
        Err(Error::InvalidDeviceNum { num: 0 })
    ));
}

#[test]
fn fetch_device_gives_what_was_found() {
    let found = device_record(native::DeviceOS::Linux, native::DeviceType::HSM, "dev");
    let device = Device::fetch_device(1, Ok(Some(found))).unwrap();
    assert_eq!(device.os(), native::DeviceOS::Linux);
    assert_eq!(device.dtype(), native::DeviceType::HSM);
}

#[test]
fn fetch_device_empty_is_not_found() {
    let result = Device::fetch_device(5, Ok(None));
    match result {
        Err(Error::DeviceNotFound { device_type, num }) => {
            assert_eq!(device_type, "any");
            assert_eq!(num, 5);
        }
        other => panic!("unexpected: {:?}", other),
    }
}

#[test]
fn fetch_device_exception_is_translated() {
    let result = Device::fetch_device(2, Err("[RUNTIME] bus fault".to_owned()));
    match result {
        Err(Error::CXXRuntime { msg }) => assert_eq!(msg, "bus fault"),
        other => panic!("unexpected: {:?}", other),
    }
}

#[test]
fn fetch_hsm_beyond_the_last_is_not_found() {
    let index = Device::native_index(4).unwrap();
    let result = Device::fetch_hsm(4, stub_fetch_hsm(&THREE, index));
    match result {
        Err(Error::DeviceNotFound { device_type, num }) => {
            assert_eq!(device_type, "HSM");
            assert_eq!(num, 4);
        }
        other => panic!("unexpected: {:?}", other),
    }
}

#[test]
fn fetch_hsm_gives_what_was_found() {
    for num in 1..=3usize {
        let index = Device::native_index(num).unwrap();
        let device: Device<Hsm, AnyOS> =
            Device::fetch_hsm(num, stub_fetch_hsm(&THREE, index)).unwrap();
        assert_eq!(device.os(), THREE[index].0);
        assert_eq!(device.dtype(), native::DeviceType::HSM);
        assert_eq!(device.max_slots(), THREE[index].1);
    }
}

#[test]
fn fetch_hsm_exception_is_translated() {
    let result = Device::fetch_hsm(1, Err("[STD] out of range".to_owned()));
    match result {
        Err(Error::CXXException { msg }) => assert_eq!(msg, "out of range"),
        other => panic!("unexpected: {:?}", other),
    }
}

#[test]
fn fetch_hsm_with_wrong_os_is_refused() {
    let result = Device::fetch_hsm_with::<Linux>(1, stub_fetch_hsm(&THREE, 0));
    match result {
        Err(Error::DeviceHasWrongOS { device_type, num, actual_os, expected_os }) => {
            assert_eq!(device_type, "HSM");
            assert_eq!(num, 1);
            assert_eq!(actual_os, native::DeviceOS::BareMetal);
            assert_eq!(expected_os, native::DeviceOS::Linux);
        }
        other => panic!("unexpected: {:?}", other),
    }
}

#[test]
fn fetch_hsm_with_right_os_fixes_it() {
    let linux: Device<Hsm, Linux> =
        Device::fetch_hsm_with::<Linux>(2, stub_fetch_hsm(&THREE, 1)).unwrap();
    assert_eq!(linux.os(), native::DeviceOS::Linux);
    assert_eq!(linux.max_slots(), 4);
    let bare: Device<Hsm, BareMetal> =
        Device::fetch_hsm_with::<BareMetal>(1, stub_fetch_hsm(&THREE, 0)).unwrap();
    assert_eq!(bare.os(), native::DeviceOS::BareMetal);
    let win: Device<Hsm, WinDoof> =
        Device::fetch_hsm_with::<WinDoof>(3, stub_fetch_hsm(&THREE, 2)).unwrap();
    assert_eq!(win.os(), native::DeviceOS::WinDoof);
}

#[test]
fn fetch_hsm_with_checks_in_order() {
    // the number comes first, then the exception, then the empty handle
    assert!(matches!(
        Device::fetch_hsm_with::<WinDoof>(0, Err("[RUNTIME] x".to_owned())),
        Err(Error::InvalidDeviceNum { num: 0 })
    ));
    match Device::fetch_hsm_with::<WinDoof>(3, Err("[RUNTIME] x".to_owned())) {
        Err(Error::CXXRuntime { msg }) => assert_eq!(msg, "x"),
        other => panic!("unexpected: {:?}", other),
    }
    match Device::fetch_hsm_with::<WinDoof>(9, Ok(None)) {
        Err(Error::DeviceNotFound { device_type, num }) => {
            assert_eq!(device_type, "HSM");
            assert_eq!(num, 9);
        }
        other => panic!("unexpected: {:?}", other),
    }
}

#[test]
fn linux_handle_has_a_name() {
    let device = Device::fetch_hsm_with::<Linux>(2, stub_fetch_hsm(&THREE, 1)).unwrap();
    assert_eq!(device.name(), "hsm-b");
}

#[test]
fn name_is_handed_on_as_it_is() {
    for name in ["", " padded ", "Schl\u{fc}ssel\u{fffd}", "line\nbreak"] {
        let found = hsm_record(native::DeviceOS::Linux, 1, name);
        let device = Device::fetch_hsm_with::<Linux>(1, Ok(Some(found))).unwrap();
        assert_eq!(device.name(), name);
    }
}

#[test]
fn name_comes_from_the_device_behind_the_module() {
    let mut found = hsm_record(native::DeviceOS::Linux, 1, "module");
    found.device = device_record(native::DeviceOS::Linux, native::DeviceType::HSM, "behind");
    let device = Device::fetch_hsm_with::<Linux>(1, Ok(Some(found))).unwrap();
    assert_eq!(device.name(), "behind");
}

#[test]
fn a_token_holds_no_device() {
    assert!(Fido.device().is_none());
}
