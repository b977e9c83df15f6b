//! The vendor commands of the X52 and how each intent is encoded into them.

use vstd::prelude::*;

verus! {

/// The vendor request code of every X52 control transfer
pub const X52_VENDOR_REQUEST: u8 = 0x91;

/// The timeout, in milliseconds, of every X52 control transfer
pub const REQUEST_TIMEOUT_MILLIS: u64 = 5000;

/// The command used to set an LED
pub const LED_SET_COMMAND: u16 = 0xB8;

/// The command to set the brightness of the LEDs
pub const LED_SET_BRIGHTNESS_COMMAND: u16 = 0xB2;

/// The command to set the brightness of the MFD
pub const MFD_SET_BRIGHTNESS_COMMAND: u16 = 0xB1;

/// The command used to clear a line of the MFD, or'ed with the line's command
pub const MFD_CLEAR_LINE_COMMAND: u16 = 0x08;

/// The amount of text that can fit on a line of the MFD
pub const MFD_LINE_SIZE: usize = 16;

/// The command to set the shift indicator on the MFD
pub const SET_SHIFT_STATUS_COMMAND: u16 = 0xFD;

/// The command to set the blinking of the throttle and POV hat LEDs
pub const SET_BLINK_STATUS_COMMAND: u16 = 0xB4;

/// The command to set clock 1
pub const CLOCK_1_SET_COMMAND: u16 = 0xC0;

/// The command to set clock 2's offset from clock 1
pub const CLOCK_2_OFFSET_COMMAND: u16 = 0xC1;

/// The command to set clock 3's offset from clock 1
pub const CLOCK_3_OFFSET_COMMAND: u16 = 0xC2;

/// Sets the day and month on the MFD
pub const SET_DAY_MONTH_COMMAND: u16 = 0xC4;

/// Sets the year on the MFD
pub const SET_YEAR_COMMAND: u16 = 0xC8;

/// The largest clock offset, in minutes, either way: 24 hours
pub const MAX_CLOCK_OFFSET: i16 = 1440;

/// The color options for each LED
#[derive(Clone, Copy, Debug, PartialEq, Eq, Structural)]
pub enum X52ColoredLedStatus {
    /// Turns the LED off
    Off,
    /// Sets the LED green
    Green,
    /// Sets the LED red
    Red,
    /// Sets the LED amber
    Amber,
}

/// The options for an LED which can only be on or off
#[derive(Clone, Copy, Debug, PartialEq, Eq, Structural)]
pub enum X52OnOffLedStatus {
    /// Turns the LED off
    Off,
    /// Turns the LED on
    On,
}

/// The colored LEDs on the X52
#[derive(Clone, Copy, Debug, PartialEq, Eq, Structural)]
pub enum X52ColoredLed {
    /// The A button on the stick
    A,
    /// The B button on the stick
    B,
    /// The D button on the throttle
    D,
    /// The E button on the throttle
    E,
    /// The LED between the T1 and T2 switches
    T1,
    /// The LED between the T3 and T4 switches
    T3,
    /// The LED between the T5 and T6 switches
    T5,
    /// The LED in the middle of the POV hat
    PovHat,
    /// The clutch button on the throttle (i button)
    Clutch,
}

/// The on/off LEDs on the X52
#[derive(Clone, Copy, Debug, PartialEq, Eq, Structural)]
pub enum X52OnOffLed {
    /// The fire button on the stick
    Fire,
    /// The LED inside the throttle
    Throttle,
}

/// The line of the MFD
#[derive(Clone, Copy, Debug, PartialEq, Eq, Structural)]
pub enum X52MFDLine {
    /// The first line
    Line1,
    /// The second line
    Line2,
    /// The third line
    Line3,
}

/// The date format for the MFD
#[derive(Clone, Copy, Debug, PartialEq, Eq, Structural)]
pub enum X52DateFormat {
    /// Day, month, year
    DDMMYY,
    /// Month, day, year
    MMDDYY,
    /// Year, month, day
    YYMMDD,
}

/// The clock format for the MFD
#[derive(Clone, Copy, Debug, PartialEq, Eq, Structural)]
pub enum X52ClockFormat {
    /// Twelve hour clock
    Hr12,
    /// 24 hour clock
    Hr24,
}

/// The clocks on the X52
#[derive(Clone, Copy, Debug, PartialEq, Eq, Structural)]
pub enum X52Clocks {
    /// Clock 1 is the real clock
    Clock1,
    /// Clock 2 is an offset from clock 1
    Clock2,
    /// Clock 3 is an offset from clock 1
    Clock3,
}

/// One vendor control transfer: the index selects what is set, the value
/// carries the payload
#[derive(Clone, Copy, Debug, PartialEq, Eq, Structural)]
pub struct X52Command {
    /// The transfer's 16 bit index
    pub index: u16,
    /// The transfer's 16 bit value
    pub value: u16,
}

/// Packing two bytes into a 16 bit value, the first in the high half
pub proof fn lemma_pack_bytes(hi: u16, lo: u16)
    requires
        hi < 256,
        lo < 256,
    ensures
        (hi << 8u16) | lo == hi * 256 + lo,
{
    assert((hi << 8u16) | lo == hi * 256 + lo) by (bit_vector)
        requires
            hi < 256,
            lo < 256,
    ;
}

/// The selector of an on/off LED
pub open spec fn on_off_led_selector(led: X52OnOffLed) -> u8 {
    match led {
        X52OnOffLed::Fire => 1,
        X52OnOffLed::Throttle => 20,
    }
}

/// The position of a colored LED among the colored LEDs
pub open spec fn colored_led_position(led: X52ColoredLed) -> int {
    match led {
        X52ColoredLed::A => 0,
        X52ColoredLed::B => 1,
        X52ColoredLed::D => 2,
        X52ColoredLed::E => 3,
        X52ColoredLed::T1 => 4,
        X52ColoredLed::T3 => 5,
        X52ColoredLed::T5 => 6,
        X52ColoredLed::PovHat => 7,
        X52ColoredLed::Clutch => 8,
    }
}

/// The (red, green) bits of each colored LED status
pub open spec fn colored_status_bits(status: X52ColoredLedStatus) -> (u8, u8) {
    match status {
        X52ColoredLedStatus::Off => (0, 0),
        X52ColoredLedStatus::Red => (1, 0),
        X52ColoredLedStatus::Green => (0, 1),
        X52ColoredLedStatus::Amber => (1, 1),
    }
}

/// The command of each MFD line
pub open spec fn mfd_line_command(line: X52MFDLine) -> u8 {
    match line {
        X52MFDLine::Line1 => 0xD1,
        X52MFDLine::Line2 => 0xD2,
        X52MFDLine::Line3 => 0xD4,
    }
}

/// Maps a given [X52OnOffLed] to a value to be sent to the X52
pub fn map_on_off_led_to_value(led: &X52OnOffLed) -> (r: u8)
    ensures
        r == on_off_led_selector(*led),
{
    match led {
        X52OnOffLed::Fire => 1,
        X52OnOffLed::Throttle => 20,
    }
}

/// Maps a given [X52ColoredLed] to the red and green values to be sent to the X52
///
/// Each colored LED takes two consecutive selectors, red then green, from 2 on.
pub fn map_colored_led_to_value(led: &X52ColoredLed) -> (r: (u8, u8))
    ensures
        r.0 == 2 + 2 * colored_led_position(*led),
        r.1 == r.0 + 1,
{
    match led {
        X52ColoredLed::A => (2, 3),
        X52ColoredLed::B => (4, 5),
        X52ColoredLed::D => (6, 7),
        X52ColoredLed::E => (8, 9),
        X52ColoredLed::T1 => (10, 11),
        X52ColoredLed::T3 => (12, 13),
        X52ColoredLed::T5 => (14, 15),
        X52ColoredLed::PovHat => (16, 17),
        X52ColoredLed::Clutch => (18, 19),
    }
}

/// Maps a given [X52OnOffLedStatus] to the values needed to send to the X52
pub fn map_on_off_led_status_to_value(status: &X52OnOffLedStatus) -> (r: u8)
    ensures
        r == (if *status == X52OnOffLedStatus::On { 1u8 } else { 0u8 }),
{
    match status {
        X52OnOffLedStatus::Off => 0,
        X52OnOffLedStatus::On => 1,
    }
}

/// Maps a given [X52ColoredLedStatus] to the values needed for the red and green LEDs
pub fn map_colored_led_status_to_value(status: &X52ColoredLedStatus) -> (r: (u8, u8))
    ensures
        r == colored_status_bits(*status),
{
    match status {
        X52ColoredLedStatus::Off => (0, 0),
        X52ColoredLedStatus::Red => (1, 0),
        X52ColoredLedStatus::Green => (0, 1),
        X52ColoredLedStatus::Amber => (1, 1),
    }
}

/// Maps a given [X52MFDLine] to the values needed to send to the X52
pub fn map_mfd_line_to_value(line: &X52MFDLine) -> (r: u8)
    ensures
        r == mfd_line_command(*line),
{
    match line {
        X52MFDLine::Line1 => 0xD1,
        X52MFDLine::Line2 => 0xD2,
        X52MFDLine::Line3 => 0xD4,
    }
}

/// Maps booleans to values needed to send to the X52
pub fn map_bool_to_value(enabled: bool) -> (r: u16)
    ensures
        r == (if enabled { 0x51u16 } else { 0x50u16 }),
{
    match enabled {
        true => 0x51,
        false => 0x50,
    }
}

/// The command that sets LED channel `selector` to `bit`
pub open spec fn led_set(selector: int, bit: int) -> X52Command {
    X52Command { index: LED_SET_COMMAND, value: (selector * 256 + bit) as u16 }
}

/// Builds the command that sets LED channel `selector` to `bit`
pub fn led_set_command(selector: u8, bit: u8) -> (r: X52Command)
    ensures
        r == led_set(selector as int, bit as int),
{
    proof {
        lemma_pack_bytes(selector as u16, bit as u16);
    }
    X52Command { index: LED_SET_COMMAND, value: ((selector as u16) << 8u16) | (bit as u16) }
}

/// The command that sets an on/off LED
pub open spec fn on_off_led_set(led: X52OnOffLed, status: X52OnOffLedStatus) -> X52Command {
    led_set(on_off_led_selector(led) as int, if status == X52OnOffLedStatus::On { 1 } else { 0 })
}

/// Builds the command that sets an on/off LED
pub fn on_off_led_command(led: &X52OnOffLed, status: &X52OnOffLedStatus) -> (r: X52Command)
    ensures
        r == on_off_led_set(*led, *status),
{
    led_set_command(map_on_off_led_to_value(led), map_on_off_led_status_to_value(status))
}

/// The two commands that set a colored LED: the red channel, then the green one
pub open spec fn colored_led_set(led: X52ColoredLed, status: X52ColoredLedStatus) -> Seq<X52Command> {
    let red = 2 + 2 * colored_led_position(led);
    seq![
        led_set(red, colored_status_bits(status).0 as int),
        led_set(red + 1, colored_status_bits(status).1 as int),
    ]
}

/// Builds the two commands that set a colored LED, red channel first
pub fn colored_led_commands(led: &X52ColoredLed, status: &X52ColoredLedStatus) -> (r: Vec<X52Command>)
    ensures
        r@ == colored_led_set(*led, *status),
{
    let (red, green) = map_colored_led_to_value(led);
    let (red_bit, green_bit) = map_colored_led_status_to_value(status);
    let r = vec![led_set_command(red, red_bit), led_set_command(green, green_bit)];
    assert(r@ =~= colored_led_set(*led, *status));
    r
}

/// The command that clears a line of the MFD
pub open spec fn mfd_clear(line: X52MFDLine) -> X52Command {
    X52Command { index: MFD_CLEAR_LINE_COMMAND | (mfd_line_command(line) as u16), value: 0 }
}

/// Builds the command that clears a line of the MFD
pub fn clear_mfd_line_command(line: &X52MFDLine) -> (r: X52Command)
    ensures
        r == mfd_clear(*line),
{
    X52Command { index: MFD_CLEAR_LINE_COMMAND | (map_mfd_line_to_value(line) as u16), value: 0 }
}

/// Builds the command that sets the brightness of the LEDs
pub fn led_brightness_command(brightness: u8) -> (r: X52Command)
    ensures
        r == (X52Command { index: LED_SET_BRIGHTNESS_COMMAND, value: brightness as u16 }),
{
    X52Command { index: LED_SET_BRIGHTNESS_COMMAND, value: brightness as u16 }
}

/// Builds the command that sets the brightness of the MFD
pub fn mfd_brightness_command(brightness: u8) -> (r: X52Command)
    ensures
        r == (X52Command { index: MFD_SET_BRIGHTNESS_COMMAND, value: brightness as u16 }),
{
    X52Command { index: MFD_SET_BRIGHTNESS_COMMAND, value: brightness as u16 }
}

/// Builds the command that turns the shift indicator on or off
pub fn shift_status_command(enabled: bool) -> (r: X52Command)
    ensures
        r.index == SET_SHIFT_STATUS_COMMAND,
        r.value == (if enabled { 0x51u16 } else { 0x50u16 }),
{
    X52Command { index: SET_SHIFT_STATUS_COMMAND, value: map_bool_to_value(enabled) }
}

/// Builds the command that turns blinking on or off
pub fn blink_status_command(enabled: bool) -> (r: X52Command)
    ensures
        r.index == SET_BLINK_STATUS_COMMAND,
        r.value == (if enabled { 0x51u16 } else { 0x50u16 }),
{
    X52Command { index: SET_BLINK_STATUS_COMMAND, value: map_bool_to_value(enabled) }
}

/// The value that sets clock 1: the 24 hour flag in bit 15, the hour (7
/// bits) in the high byte, the minute in the low byte
pub open spec fn clock_1_value(hour: u8, minute: u8, use_24h: bool) -> int {
    (if use_24h { 0x8000int } else { 0int }) + (hour % 128) * 256 + minute
}

/// Builds the command that sets clock 1
pub fn clock_1_command(hour: u8, minute: u8, use_24h: bool) -> (r: X52Command)
    ensures
        r.index == CLOCK_1_SET_COMMAND,
        r.value == clock_1_value(hour, minute, use_24h),
{
    let flag: u16 = if use_24h { 1 } else { 0 };
    let h = hour as u16;
    let m = minute as u16;
    let value = (flag << 15u16) | ((h & 0x7Fu16) << 8u16) | m;
    assert(value == flag * 0x8000 + (h % 128) * 256 + m) by (bit_vector)
        requires
            flag <= 1,
            h < 256,
            m < 256,
            value == (flag << 15u16) | ((h & 0x7Fu16) << 8u16) | m,
    ;
    X52Command { index: CLOCK_1_SET_COMMAND, value }
}

/// The value that sets a clock's offset: the 24 hour flag in bit 15; a
/// positive offset with bit 10 set, any other as its 16 bit two's complement
pub open spec fn clock_offset_value(offset: i16, use_24h: bool) -> u16 {
    let flag: u16 = if use_24h { 0x8000 } else { 0 };
    if offset > 0 {
        flag | 0x400u16 | (offset as u16)
    } else {
        flag | (offset as u16)
    }
}

/// Encodes a clock offset, already known to be within 24 hours either way
pub fn encode_clock_offset(offset: i16, use_24h: bool) -> (r: u16)
    requires
        -MAX_CLOCK_OFFSET <= offset <= MAX_CLOCK_OFFSET,
    ensures
        r == clock_offset_value(offset, use_24h),
{
    let flag: u16 = if use_24h { 0x8000 } else { 0 };
    if offset > 0 {
        flag | 0x400u16 | (offset as u16)
    } else {
        flag | (offset as u16)
    }
}

/// The values of the day/month command and of the year command
pub open spec fn date_values(day: u8, month: u8, year: u8, format: X52DateFormat) -> (int, int) {
    match format {
        X52DateFormat::DDMMYY => (month * 256 + day, year as int),
        X52DateFormat::MMDDYY => (day * 256 + month, year as int),
        X52DateFormat::YYMMDD => (month * 256 + year, day as int),
    }
}

/// The two commands that set the date
pub open spec fn date_set(day: u8, month: u8, year: u8, format: X52DateFormat) -> Seq<X52Command> {
    let (first, second) = date_values(day, month, year, format);
    seq![
        X52Command { index: SET_DAY_MONTH_COMMAND, value: first as u16 },
        X52Command { index: SET_YEAR_COMMAND, value: second as u16 },
    ]
}

/// Builds the two commands that set the date, day/month first
pub fn date_commands(day: u8, month: u8, year: u8, format: &X52DateFormat) -> (r: Vec<X52Command>)
    ensures
        r@ == date_set(day, month, year, *format),
{
    let (d, m, y) = (day as u16, month as u16, year as u16);
    proof {
        lemma_pack_bytes(m, d);
        lemma_pack_bytes(d, m);
        lemma_pack_bytes(m, y);
    }
    let (first, second) = match format {
        X52DateFormat::DDMMYY => ((m << 8u16) | d, y),
        X52DateFormat::MMDDYY => ((d << 8u16) | m, y),
        X52DateFormat::YYMMDD => ((m << 8u16) | y, d),
    };
    let r = vec![
        X52Command { index: SET_DAY_MONTH_COMMAND, value: first },
        X52Command { index: SET_YEAR_COMMAND, value: second },
    ];
    assert(r@ =~= date_set(day, month, year, *format));
    r
}

} // verus!
