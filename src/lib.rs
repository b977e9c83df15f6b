//! Command encoding and device identification for the Saitek / Logitech X52
//! and X52 Pro HOTAS.
//!
//! The library turns typed intents (set an LED to a colour, write text to a
//! line of the multi-function display, set a clock offset) into the exact
//! vendor control transfers the device expects, and decides which device
//! variant is attached and whether an operation is supported on it.
//! Performing the transfers over USB is left to the caller.

pub mod command;
pub mod descriptor;
pub mod driver;
pub mod error;
pub mod mfd;

pub use command::{
    blink_status_command, clear_mfd_line_command, clock_1_command, colored_led_commands,
    date_commands, encode_clock_offset, led_brightness_command, led_set_command,
    map_bool_to_value, map_colored_led_status_to_value, map_colored_led_to_value,
    map_mfd_line_to_value, map_on_off_led_status_to_value, map_on_off_led_to_value,
    mfd_brightness_command, on_off_led_command, shift_status_command, X52ClockFormat, X52Clocks,
    X52ColoredLed, X52ColoredLedStatus, X52Command, X52DateFormat, X52MFDLine, X52OnOffLed,
    X52OnOffLedStatus, CLOCK_1_SET_COMMAND, CLOCK_2_OFFSET_COMMAND, CLOCK_3_OFFSET_COMMAND,
    LED_SET_BRIGHTNESS_COMMAND, LED_SET_COMMAND, MAX_CLOCK_OFFSET, MFD_CLEAR_LINE_COMMAND,
    MFD_LINE_SIZE, MFD_SET_BRIGHTNESS_COMMAND, REQUEST_TIMEOUT_MILLIS, SET_BLINK_STATUS_COMMAND,
    SET_DAY_MONTH_COMMAND, SET_SHIFT_STATUS_COMMAND, SET_YEAR_COMMAND, X52_VENDOR_REQUEST,
};
pub use descriptor::{
    filter_x52_descriptors, get_x52_type_from_descriptor, is_descriptor_x52, match_descriptor,
    possible_descriptors, X52Descriptor, X52DescriptorView, X52DeviceType, SAITEK_ID,
};
pub use driver::{ensure_x52_is_pro, find_device_from_bus_device, X52Driver};
pub use error::{Error, ErrorId};
pub use mfd::{center_mfd_text, write_mfd_line};
