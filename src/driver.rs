//! The X52 device handle: which device is attached, whether an operation is
//! supported on it, and the commands that carry out each operation.

use vstd::prelude::*;
use vstd::string::*;
use vstd::utf8::*;
use crate::command::{
    clear_mfd_line_command, clock_1_command, clock_1_value, clock_offset_value, colored_led_commands,
    colored_led_set, date_commands, date_set, encode_clock_offset, led_brightness_command,
    mfd_brightness_command, mfd_clear, on_off_led_command, on_off_led_set, shift_status_command,
    blink_status_command, X52ColoredLed, X52ColoredLedStatus, X52Command, X52DateFormat,
    X52MFDLine, X52OnOffLed, X52OnOffLedStatus, CLOCK_1_SET_COMMAND, CLOCK_2_OFFSET_COMMAND,
    CLOCK_3_OFFSET_COMMAND, LED_SET_BRIGHTNESS_COMMAND, MAX_CLOCK_OFFSET, MFD_LINE_SIZE,
    MFD_SET_BRIGHTNESS_COMMAND, SET_BLINK_STATUS_COMMAND, SET_SHIFT_STATUS_COMMAND,
};
use crate::descriptor::{known_type, match_descriptor, X52DeviceType};
use crate::error::{
    dec3, push_dec3, push_signed_decimal, signed_decimal, Error, ErrorId,
};
use crate::mfd::{center_mfd_text, mfd_text_commands, write_mfd_line};

verus! {

/// The message of the error for a bus and device number that match no device
pub open spec fn bus_device_not_found_message(bus: u8, device: u8) -> Seq<char> {
    "No device found at Bus "@ + dec3(bus) + " Device "@ + dec3(device)
}

/// The message of the error for a device that is not an X52
pub open spec fn not_x52_message(bus: u8, device: u8) -> Seq<char> {
    "The device at Bus "@ + dec3(bus) + " Device "@ + dec3(device) + " is not an X52"@
}

/// The message of the error for a Pro feature used on a standard X52
pub open spec fn not_a_pro_message(bus: u8, device: u8) -> Seq<char> {
    not_x52_message(bus, device) + " Pro"@
}

/// The message of the error for text that does not fit on a line of the MFD
pub open spec fn text_too_long_message(text: Seq<char>) -> Seq<char> {
    "The text \""@ + text + "\" is too long to fit on the MFD"@
}

/// The message of the error for text with characters that are not ASCII
pub open spec fn text_not_ascii_message(text: Seq<char>) -> Seq<char> {
    "The text \""@ + text + "\" contains non-ASCII characters"@
}

/// The message of the error for a clock offset of more than 24 hours
pub open spec fn clock_offset_message(clock: Seq<char>, offset: i16) -> Seq<char> {
    "Clock "@ + clock + " offset ("@ + signed_decimal(offset as int) + ") too large"@
}

/// Whether a clock offset is within 24 hours either way
pub open spec fn offset_in_range(offset: i16) -> bool {
    -MAX_CLOCK_OFFSET <= offset <= MAX_CLOCK_OFFSET
}

/// `prefix`, then the bus and device numbers
fn bus_device_text(prefix: &str, bus: u8, device: u8) -> (r: String)
    ensures
        r@ == prefix@ + dec3(bus) + " Device "@ + dec3(device),
{
    let mut s = String::from_str(prefix);
    push_dec3(&mut s, bus);
    s.append(" Device ");
    push_dec3(&mut s, device);
    s
}

/// Finds the device with the given bus and device numbers among the
/// (bus, address) pairs of the attached devices
///
/// Returns the position of the first that matches.
pub fn find_device_from_bus_device(devices: &Vec<(u8, u8)>, bus: u8, device: u8) -> (r: Result<
    usize,
    Error,
>)
    ensures
        r is Err <==> !devices@.contains((bus, device)),
        match r {
            Ok(i) => i < devices@.len() && devices@[i as int] == (bus, device) && forall|j: int|
                0 <= j < i ==> devices@[j] != (bus, device),
            Err(e) => (forall|j: int| 0 <= j < devices@.len() ==> devices@[j] != (bus, device))
                && e.kind() == Some(ErrorId::BusDeviceNotFound) && e.message()
                == bus_device_not_found_message(bus, device),
        },
{
    let mut i: usize = 0;
    while i < devices.len()
        invariant
            i <= devices@.len(),
            forall|j: int| 0 <= j < i ==> devices@[j] != (bus, device),
        decreases devices@.len() - i,
    {
        let (b, d) = devices[i];
        if b == bus && d == device {
            assert(devices@[i as int] == (bus, device));
            return Ok(i);
        }
        i += 1;
    }
    Err(Error::new(ErrorId::BusDeviceNotFound, bus_device_text("No device found at Bus ", bus, device)))
}

/// A driver used to control a X52 device
///
/// It holds the resolved type of the device and where it is attached, and
/// gives for each operation the control transfers that carry it out, in the
/// order in which they are to be sent. Every transfer goes out with request
/// [`crate::command::X52_VENDOR_REQUEST`] and a timeout of
/// [`crate::command::REQUEST_TIMEOUT_MILLIS`].
#[derive(Clone, Copy, Debug)]
pub struct X52Driver {
    x52_type: X52DeviceType,
    bus: u8,
    address: u8,
}

impl X52Driver {
    /// The resolved type of the device
    pub closed spec fn device_type(&self) -> X52DeviceType {
        self.x52_type
    }

    /// The bus the device is attached to
    pub closed spec fn bus(&self) -> u8 {
        self.bus
    }

    /// The address of the device on its bus
    pub closed spec fn address(&self) -> u8 {
        self.address
    }

    /// Creates an X52Driver for the device at a known bus and device number,
    /// given the vendor and product IDs that its USB descriptor reports
    pub fn new_from_bus_device(bus: u8, device: u8, vendor: u16, product: u16) -> (r: Result<
        X52Driver,
        Error,
    >)
        ensures
            match r {
                Ok(d) => known_type(vendor, product) == Some(d.device_type()) && d.bus() == bus
                    && d.address() == device,
                Err(e) => known_type(vendor, product) is None && e.kind() == Some(
                    ErrorId::DeviceNotX52,
                ) && e.message() == not_x52_message(bus, device),
            },
    {
        match match_descriptor(vendor, product) {
            Some(d) => Ok(X52Driver { x52_type: *d.x52_type(), bus, address: device }),
            None => {
                let mut msg = bus_device_text("The device at Bus ", bus, device);
                msg.append(" is not an X52");
                Err(Error::new(ErrorId::DeviceNotX52, msg))
            },
        }
    }

    /// Gets the type of X52 this device refers to
    pub fn x52_type(&self) -> (r: X52DeviceType)
        ensures
            r == self.device_type(),
    {
        self.x52_type
    }

    /// Returns the (bus, device) of the device
    pub fn get_bus_device(&self) -> (r: (u8, u8))
        ensures
            r == (self.bus(), self.address()),
    {
        (self.bus, self.address)
    }

    /// Toggles an LED which can be either on or off on the X52
    ///
    /// Only the X52 Pro has these LEDs.
    pub fn toggle_led_on_off(&self, led: &X52OnOffLed, status: &X52OnOffLedStatus) -> (r: Result<
        X52Command,
        Error,
    >)
        ensures
            match r {
                Ok(c) => self.device_type() == X52DeviceType::X52Pro && c == on_off_led_set(
                    *led,
                    *status,
                ),
                Err(e) => self.device_type() == X52DeviceType::X52 && e.kind() == Some(
                    ErrorId::NotAPro,
                ) && e.message() == not_a_pro_message(self.bus(), self.address()),
            },
    {
        ensure_x52_is_pro(self)?;
        Ok(on_off_led_command(led, status))
    }

    /// Sets the color of a multicolored LED: the red channel, then the green
    ///
    /// Only the X52 Pro has these LEDs.
    pub fn toggle_led_colored(&self, led: &X52ColoredLed, status: &X52ColoredLedStatus) -> (r:
        Result<Vec<X52Command>, Error>)
        ensures
            match r {
                Ok(c) => self.device_type() == X52DeviceType::X52Pro && c@ == colored_led_set(
                    *led,
                    *status,
                ),
                Err(e) => self.device_type() == X52DeviceType::X52 && e.kind() == Some(
                    ErrorId::NotAPro,
                ) && e.message() == not_a_pro_message(self.bus(), self.address()),
            },
    {
        ensure_x52_is_pro(self)?;
        Ok(colored_led_commands(led, status))
    }

    /// Clears a line of text on the MFD
    pub fn clear_mfd_line(&self, line: &X52MFDLine) -> (r: X52Command)
        ensures
            r == mfd_clear(*line),
    {
        clear_mfd_line_command(line)
    }

    /// Sets a line of text on the MFD
    ///
    /// The line is cleared, then the text, centered and padded with spaces
    /// to 16 characters, is written two characters at a time.
    pub fn set_mfd_text(&self, line: &X52MFDLine, text: String) -> (r: Result<
        Vec<X52Command>,
        Error,
    >)
        ensures
            encode_utf8(text@).len() > MFD_LINE_SIZE ==> r is Err && r->Err_0.kind() == Some(
                ErrorId::MFDLineTooLong,
            ) && r->Err_0.message() == text_too_long_message(text@),
            encode_utf8(text@).len() <= MFD_LINE_SIZE && !is_ascii_chars(text@) ==> r is Err
                && r->Err_0.kind() == Some(ErrorId::MFDNotASCII) && r->Err_0.message()
                == text_not_ascii_message(text@),
            encode_utf8(text@).len() <= MFD_LINE_SIZE && is_ascii_chars(text@) ==> r is Ok
                && r->Ok_0@ == mfd_text_commands(*line, encode_utf8(text@)) && r->Ok_0@.len()
                == 9,
    {
        let s = text.as_str();
        if s.as_bytes().len() > MFD_LINE_SIZE {
            let mut msg = String::from_str("The text \"");
            msg.append(s);
            msg.append("\" is too long to fit on the MFD");
            return Err(Error::new(ErrorId::MFDLineTooLong, msg));
        }
        if !s.is_ascii() {
            let mut msg = String::from_str("The text \"");
            msg.append(s);
            msg.append("\" contains non-ASCII characters");
            return Err(Error::new(ErrorId::MFDNotASCII, msg));
        }
        let centered = center_mfd_text(s);
        let mut r = vec![clear_mfd_line_command(line)];
        let mut chunks = write_mfd_line(line, &centered);
        r.append(&mut chunks);
        assert(r@ =~= mfd_text_commands(*line, encode_utf8(text@)));
        Ok(r)
    }

    /// Sets the brightness of the LEDs on the X52
    ///
    /// `brightness` should be between 0 and 128; higher values are sent as
    /// they are, and their effect on the device is not defined.
    pub fn set_led_brightness(&self, brightness: u8) -> (r: X52Command)
        ensures
            r == (X52Command { index: LED_SET_BRIGHTNESS_COMMAND, value: brightness as u16 }),
    {
        led_brightness_command(brightness)
    }

    /// Sets the brightness of the MFD on the X52
    ///
    /// `brightness` should be between 0 and 128; higher values are sent as
    /// they are, and their effect on the device is not defined.
    pub fn set_mfd_brightness(&self, brightness: u8) -> (r: X52Command)
        ensures
            r == (X52Command { index: MFD_SET_BRIGHTNESS_COMMAND, value: brightness as u16 }),
    {
        mfd_brightness_command(brightness)
    }

    /// Sets the "shift" status on the X52's MFD
    pub fn set_shift_status(&self, enabled: bool) -> (r: X52Command)
        ensures
            r.index == SET_SHIFT_STATUS_COMMAND,
            r.value == (if enabled { 0x51u16 } else { 0x50u16 }),
    {
        shift_status_command(enabled)
    }

    /// Sets the blink status for the throttle and POV hat
    pub fn set_blink_status(&self, enabled: bool) -> (r: X52Command)
        ensures
            r.index == SET_BLINK_STATUS_COMMAND,
            r.value == (if enabled { 0x51u16 } else { 0x50u16 }),
    {
        blink_status_command(enabled)
    }

    /// Sets the primary clock of the X52
    ///
    /// Only the low 7 bits of `hour` are sent; neither value is checked.
    pub fn set_clock_1(&self, hour: u8, minute: u8, use_24h: bool) -> (r: X52Command)
        ensures
            r.index == CLOCK_1_SET_COMMAND,
            r.value == clock_1_value(hour, minute, use_24h),
    {
        clock_1_command(hour, minute, use_24h)
    }

    /// Sets the clock 2 offset in minutes from clock 1
    pub fn set_clock_2_offset(&self, offset: i16, use_24h: bool) -> (r: Result<X52Command, Error>)
        ensures
            match r {
                Ok(c) => offset_in_range(offset) && c == (X52Command {
                    index: CLOCK_2_OFFSET_COMMAND,
                    value: clock_offset_value(offset, use_24h),
                }),
                Err(e) => !offset_in_range(offset) && e.kind() == Some(ErrorId::ClockOffsetTooBig)
                    && e.message() == clock_offset_message("2"@, offset),
            },
    {
        clock_offset_command(CLOCK_2_OFFSET_COMMAND, "2", offset, use_24h)
    }

    /// Sets the clock 3 offset in minutes from clock 1
    pub fn set_clock_3_offset(&self, offset: i16, use_24h: bool) -> (r: Result<X52Command, Error>)
        ensures
            match r {
                Ok(c) => offset_in_range(offset) && c == (X52Command {
                    index: CLOCK_3_OFFSET_COMMAND,
                    value: clock_offset_value(offset, use_24h),
                }),
                Err(e) => !offset_in_range(offset) && e.kind() == Some(ErrorId::ClockOffsetTooBig)
                    && e.message() == clock_offset_message("3"@, offset),
            },
    {
        clock_offset_command(CLOCK_3_OFFSET_COMMAND, "3", offset, use_24h)
    }

    /// Sets the given day, month, and year as the date on the X52
    ///
    /// The year must only be two digits.
    pub fn set_date(&self, day: u8, month: u8, year: u8, format: X52DateFormat) -> (r: Vec<
        X52Command,
    >)
        ensures
            r@ == date_set(day, month, year, format),
    {
        date_commands(day, month, year, &format)
    }
}

/// The command that sets the offset of clock `clock`, or the error for an
/// offset of more than 24 hours
fn clock_offset_command(command: u16, clock: &str, offset: i16, use_24h: bool) -> (r: Result<
    X52Command,
    Error,
>)
    ensures
        match r {
            Ok(c) => offset_in_range(offset) && c == (X52Command {
                index: command,
                value: clock_offset_value(offset, use_24h),
            }),
            Err(e) => !offset_in_range(offset) && e.kind() == Some(ErrorId::ClockOffsetTooBig)
                && e.message() == clock_offset_message(clock@, offset),
        },
{
    if offset < -MAX_CLOCK_OFFSET || offset > MAX_CLOCK_OFFSET {
        let mut msg = String::from_str("Clock ");
        msg.append(clock);
        msg.append(" offset (");
        push_signed_decimal(&mut msg, offset);
        msg.append(") too large");
        Err(Error::new(ErrorId::ClockOffsetTooBig, msg))
    } else {
        Ok(X52Command { index: command, value: encode_clock_offset(offset, use_24h) })
    }
}

/// Ensures that an X52 is a Pro, or gives the error for a standard X52
pub fn ensure_x52_is_pro(driver: &X52Driver) -> (r: Result<(), Error>)
    ensures
        match r {
            Ok(_) => driver.device_type() == X52DeviceType::X52Pro,
            Err(e) => driver.device_type() == X52DeviceType::X52 && e.kind() == Some(
                ErrorId::NotAPro,
            ) && e.message() == not_a_pro_message(driver.bus(), driver.address()),
        },
{
    if driver.x52_type() == X52DeviceType::X52 {
        let (bus, device) = driver.get_bus_device();
        let mut msg = bus_device_text("The device at Bus ", bus, device);
        msg.append(" is not an X52 Pro");
        proof {
            reveal_strlit(" is not an X52 Pro");
            reveal_strlit(" is not an X52");
            reveal_strlit(" Pro");
        }
        assert(msg@ =~= not_a_pro_message(bus, device));
        Err(Error::new(ErrorId::NotAPro, msg))
    } else {
        Ok(())
    }
}

} // verus!
