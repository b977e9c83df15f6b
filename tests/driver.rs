use rx52::{
    ensure_x52_is_pro, find_device_from_bus_device, ErrorId, X52ColoredLed, X52ColoredLedStatus,
    X52Command, X52DateFormat, X52DeviceType, X52Driver, X52MFDLine, X52OnOffLed,
    X52OnOffLedStatus,
};

fn base() -> X52Driver {
    X52Driver::new_from_bus_device(3, 7, 0x06A3, 0x0225).unwrap()
}

fn pro() -> X52Driver {
    X52Driver::new_from_bus_device(1, 2, 0x06A3, 0x0762).unwrap()
}

#[test]
fn bus_device_not_found() {
    let devices = vec![(1, 3), (2, 2), (4, 1)];
    let err = find_device_from_bus_device(&devices, 1, 2).unwrap_err();
    assert_eq!(err.id(), Some(ErrorId::BusDeviceNotFound));
    assert_eq!(err.to_string(), "No device found at Bus 001 Device 002");
    assert_eq!(find_device_from_bus_device(&vec![], 1, 2).unwrap_err().id(), Some(ErrorId::BusDeviceNotFound));
}

#[test]
fn bus_device_found_first_match() {
    let devices = vec![(1, 3), (1, 2), (1, 2)];
    assert_eq!(find_device_from_bus_device(&devices, 1, 2).unwrap(), 1);
}

#[test]
fn resolving_pro_descriptor() {
    let d = pro();
    assert_eq!(d.x52_type(), X52DeviceType::X52Pro);
    assert_eq!(d.get_bus_device(), (1, 2));
    assert_eq!(base().x52_type(), X52DeviceType::X52);
}

#[test]
fn resolving_unknown_descriptor() {
    let err = X52Driver::new_from_bus_device(1, 20, 0x046d, 0xc52b).unwrap_err();
    assert_eq!(err.id(), Some(ErrorId::DeviceNotX52));
    assert_eq!(err.to_string(), "The device at Bus 001 Device 020 is not an X52");
}

#[test]
fn pro_only_operations_refused_on_base() {
    let err = base().toggle_led_on_off(&X52OnOffLed::Fire, &X52OnOffLedStatus::On).unwrap_err();
    assert_eq!(err.id(), Some(ErrorId::NotAPro));
    assert_eq!(err.to_string(), "The device at Bus 003 Device 007 is not an X52 Pro");
    let err = base().toggle_led_colored(&X52ColoredLed::A, &X52ColoredLedStatus::Red).unwrap_err();
    assert_eq!(err.id(), Some(ErrorId::NotAPro));
    assert_eq!(ensure_x52_is_pro(&base()).unwrap_err().id(), Some(ErrorId::NotAPro));
    assert!(ensure_x52_is_pro(&pro()).is_ok());
}

#[test]
fn pro_only_operations_on_pro() {
    assert_eq!(
        pro().toggle_led_on_off(&X52OnOffLed::Fire, &X52OnOffLedStatus::On).unwrap(),
        X52Command { index: 0xB8, value: 0x0101 }
    );
    assert_eq!(
        pro().toggle_led_colored(&X52ColoredLed::T1, &X52ColoredLedStatus::Red).unwrap(),
        vec![X52Command { index: 0xB8, value: 0x0A01 }, X52Command { index: 0xB8, value: 0x0B00 }]
    );
}

#[test]
fn clock_2_offset_too_big() {
    let err = pro().set_clock_2_offset(1500, true).unwrap_err();
    assert_eq!(err.id(), Some(ErrorId::ClockOffsetTooBig));
    assert_eq!(err.to_string(), "Clock 2 offset (1500) too large");
    let err = base().set_clock_3_offset(-1441, false).unwrap_err();
    assert_eq!(err.id(), Some(ErrorId::ClockOffsetTooBig));
    assert_eq!(err.to_string(), "Clock 3 offset (-1441) too large");
    let err = base().set_clock_3_offset(i16::MIN, false).unwrap_err();
    assert_eq!(err.to_string(), "Clock 3 offset (-32768) too large");
}

#[test]
fn clock_2_offset_ninety_minutes() {
    assert_eq!(
        pro().set_clock_2_offset(90, false).unwrap(),
        X52Command { index: 0xC1, value: (0 << 15) | (1 << 10) | 90 }
    );
}

#[test]
fn clock_offsets_at_the_limits() {
    assert!(pro().set_clock_2_offset(1440, false).is_ok());
    assert!(pro().set_clock_2_offset(-1440, false).is_ok());
    assert!(pro().set_clock_3_offset(1441, false).is_err());
    assert_eq!(
        base().set_clock_3_offset(-30, true).unwrap(),
        X52Command { index: 0xC2, value: 0x8000 | (-30i16) as u16 }
    );
}

#[test]
fn other_operations_on_any_device() {
    let d = base();
    assert_eq!(d.clear_mfd_line(&X52MFDLine::Line3), X52Command { index: 0xDC, value: 0 });
    assert_eq!(d.set_led_brightness(64), X52Command { index: 0xB2, value: 64 });
    assert_eq!(d.set_mfd_brightness(200), X52Command { index: 0xB1, value: 200 });
    assert_eq!(d.set_shift_status(true), X52Command { index: 0xFD, value: 0x51 });
    assert_eq!(d.set_blink_status(true), X52Command { index: 0xB4, value: 0x51 });
    assert_eq!(d.set_clock_1(23, 59, true), X52Command { index: 0xC0, value: 0x8000 | (23 << 8) | 59 });
    assert_eq!(d.set_date(1, 2, 3, X52DateFormat::DDMMYY).len(), 2);
    assert!(d.set_mfd_text(&X52MFDLine::Line1, "base".to_string()).is_ok());
}
