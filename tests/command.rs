use rx52::{
    blink_status_command, clear_mfd_line_command, clock_1_command, colored_led_commands,
    date_commands, encode_clock_offset, led_brightness_command, map_bool_to_value,
    map_colored_led_status_to_value, map_colored_led_to_value, map_mfd_line_to_value,
    map_on_off_led_status_to_value, map_on_off_led_to_value, mfd_brightness_command,
    on_off_led_command, shift_status_command, X52ColoredLed, X52ColoredLedStatus, X52Command,
    X52DateFormat, X52MFDLine, X52OnOffLed, X52OnOffLedStatus,
};

#[test]
fn colored_status_bits_table() {
    assert_eq!(map_colored_led_status_to_value(&X52ColoredLedStatus::Off), (0, 0));
    assert_eq!(map_colored_led_status_to_value(&X52ColoredLedStatus::Red), (1, 0));
    assert_eq!(map_colored_led_status_to_value(&X52ColoredLedStatus::Green), (0, 1));
    assert_eq!(map_colored_led_status_to_value(&X52ColoredLedStatus::Amber), (1, 1));
}

#[test]
fn led_selectors() {
    assert_eq!(map_on_off_led_to_value(&X52OnOffLed::Fire), 1);
    assert_eq!(map_on_off_led_to_value(&X52OnOffLed::Throttle), 20);
    assert_eq!(map_colored_led_to_value(&X52ColoredLed::A), (2, 3));
    assert_eq!(map_colored_led_to_value(&X52ColoredLed::PovHat), (16, 17));
    assert_eq!(map_colored_led_to_value(&X52ColoredLed::Clutch), (18, 19));
    assert_eq!(map_on_off_led_status_to_value(&X52OnOffLedStatus::Off), 0);
    assert_eq!(map_on_off_led_status_to_value(&X52OnOffLedStatus::On), 1);
}

#[test]
fn line_and_flag_values() {
    assert_eq!(map_mfd_line_to_value(&X52MFDLine::Line1), 0xD1);
    assert_eq!(map_mfd_line_to_value(&X52MFDLine::Line2), 0xD2);
    assert_eq!(map_mfd_line_to_value(&X52MFDLine::Line3), 0xD4);
    assert_eq!(map_bool_to_value(true), 0x51);
    assert_eq!(map_bool_to_value(false), 0x50);
    assert_eq!(shift_status_command(true), X52Command { index: 0xFD, value: 0x51 });
    assert_eq!(blink_status_command(false), X52Command { index: 0xB4, value: 0x50 });
}

#[test]
fn on_off_led_command_packs_selector_and_bit() {
    assert_eq!(
        on_off_led_command(&X52OnOffLed::Throttle, &X52OnOffLedStatus::On),
        X52Command { index: 0xB8, value: (20 << 8) | 1 }
    );
    assert_eq!(
        on_off_led_command(&X52OnOffLed::Fire, &X52OnOffLedStatus::Off),
        X52Command { index: 0xB8, value: 1 << 8 }
    );
}

#[test]
fn colored_led_sends_red_then_green() {
    let c = colored_led_commands(&X52ColoredLed::B, &X52ColoredLedStatus::Green);
    assert_eq!(
        c,
        vec![X52Command { index: 0xB8, value: 4 << 8 }, X52Command { index: 0xB8, value: (5 << 8) | 1 }]
    );
    let c = colored_led_commands(&X52ColoredLed::A, &X52ColoredLedStatus::Amber);
    assert_eq!(c[0].value, 0x0201);
    assert_eq!(c[1].value, 0x0301);
}

#[test]
fn clear_line_ors_line_command() {
    assert_eq!(clear_mfd_line_command(&X52MFDLine::Line1), X52Command { index: 0xD9, value: 0 });
    assert_eq!(clear_mfd_line_command(&X52MFDLine::Line2), X52Command { index: 0xDA, value: 0 });
    assert_eq!(clear_mfd_line_command(&X52MFDLine::Line3), X52Command { index: 0xDC, value: 0 });
}

#[test]
fn brightness_commands() {
    assert_eq!(led_brightness_command(128), X52Command { index: 0xB2, value: 128 });
    assert_eq!(mfd_brightness_command(255), X52Command { index: 0xB1, value: 255 });
}

#[test]
fn clock_1_layout() {
    assert_eq!(clock_1_command(13, 45, true), X52Command { index: 0xC0, value: 0x8000 | (13 << 8) | 45 });
    assert_eq!(clock_1_command(1, 5, false).value, 0x0105);
    // only the low 7 bits of the hour are kept
    assert_eq!(clock_1_command(0xFF, 0, false).value, 0x7F00);
}

#[test]
fn clock_offset_encoding() {
    assert_eq!(encode_clock_offset(90, false), (1 << 10) | 90);
    assert_eq!(encode_clock_offset(90, true), 0x8000 | (1 << 10) | 90);
    assert_eq!(encode_clock_offset(0, false), 0);
    assert_eq!(encode_clock_offset(0, true), 0x8000);
    assert_eq!(encode_clock_offset(-90, false), (-90i16) as u16);
    assert_eq!(encode_clock_offset(-1440, true), (-1440i16) as u16);
    assert_eq!(encode_clock_offset(1440, false), 1440 | (1 << 10));
}

#[test]
fn date_orders() {
    assert_eq!(
        date_commands(31, 12, 24, &X52DateFormat::DDMMYY),
        vec![X52Command { index: 0xC4, value: (12 << 8) | 31 }, X52Command { index: 0xC8, value: 24 }]
    );
    assert_eq!(
        date_commands(31, 12, 24, &X52DateFormat::MMDDYY),
        vec![X52Command { index: 0xC4, value: (31 << 8) | 12 }, X52Command { index: 0xC8, value: 24 }]
    );
    assert_eq!(
        date_commands(31, 12, 24, &X52DateFormat::YYMMDD),
        vec![X52Command { index: 0xC4, value: (12 << 8) | 24 }, X52Command { index: 0xC8, value: 31 }]
    );
}
