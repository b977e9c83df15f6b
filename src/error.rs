//! Errors reported by the library, and the text helpers that build their
//! messages.

use vstd::prelude::*;
use vstd::string::*;
use rusb::Error as UsbError;

verus! {

/// The error type of the `rusb` USB library (`rusb::Error`), carried through unchanged.
#[verifier::external_type_specification]
#[verifier::external_body]
pub struct ExUsbError(UsbError);

/// Machine readable error IDs for [`Error`]s generated by this library
#[derive(Debug, Clone, Copy, PartialEq, Eq, Structural)]
pub enum ErrorId {
    /// No X52s were detected
    NoX52sFound,
    /// Tried to use a Pro feature on a regular X52
    NotAPro,
    /// The device at the given bus and address is not an X52
    DeviceNotX52,
    /// The given bus and device number did not match any detected devices
    BusDeviceNotFound,
    /// Tried to write a string to the MFD that was longer than 16 characters
    MFDLineTooLong,
    /// Tried to write a string with non-ASCII characters to the MFD
    MFDNotASCII,
    /// The given offset for clocks 2 or 3 was greater than 24 hours
    ClockOffsetTooBig,
}

/// Where an [`Error`] came from
#[derive(Debug)]
enum ErrorCause {
    /// Detected by this library, with a human readable message
    Domain(ErrorId, String),
    /// A message alone, with neither an id nor a transport error
    Message(String),
    /// Reported by the USB transport
    Transport(UsbError),
}

/// Error used by this library
///
/// Either a domain error, with an [`ErrorId`] and a message, an error of
/// the USB transport, carried unchanged, or a message alone.
#[derive(Debug)]
pub struct Error {
    cause: ErrorCause,
}

impl Error {
    /// The [`ErrorId`] of a domain error; `None` for a transport error
    pub closed spec fn kind(&self) -> Option<ErrorId> {
        match self.cause {
            ErrorCause::Domain(id, _) => Some(id),
            _ => None,
        }
    }

    /// The transport error carried, if any
    pub closed spec fn transport(&self) -> Option<UsbError> {
        match self.cause {
            ErrorCause::Transport(e) => Some(e),
            _ => None,
        }
    }

    /// The message of a domain error or of a message alone; empty for a
    /// transport error
    pub closed spec fn message(&self) -> Seq<char> {
        match self.cause {
            ErrorCause::Domain(_, m) => m@,
            ErrorCause::Message(m) => m@,
            ErrorCause::Transport(_) => Seq::empty(),
        }
    }

    /// Creates a new [`Error`] from an [`ErrorId`] and a [`String`]
    pub fn new(id: ErrorId, string: String) -> (r: Error)
        ensures
            r.kind() == Some(id),
            r.transport() is None,
            r.message() == string@,
    {
        Error { cause: ErrorCause::Domain(id, string) }
    }

    /// Gives the [`ErrorId`] of the [`Error`]
    ///
    /// If this is [`None`], then the [`Error`] came from the USB transport;
    /// [`Error::rusb_error`] gives the underlying error.
    pub fn id(&self) -> (r: Option<ErrorId>)
        ensures
            r == self.kind(),
    {
        match &self.cause {
            ErrorCause::Domain(id, _) => Some(*id),
            _ => None,
        }
    }

    /// Gets the [`rusb::Error`] this [`Error`] carries, if it came from the
    /// USB transport
    pub fn rusb_error(&self) -> (r: Option<UsbError>)
        ensures
            r == self.transport(),
    {
        match &self.cause {
            ErrorCause::Transport(e) => Some(*e),
            _ => None,
        }
    }

    /// The human readable message: the error's own message, or the
    /// transport error's own description
    pub fn to_string(&self) -> (r: String)
        ensures
            match self.transport() {
                Some(e) => to_string_from_display_ensures::<UsbError>(&e, r),
                None => r@ == self.message(),
            },
    {
        match &self.cause {
            ErrorCause::Domain(_, m) => m.clone(),
            ErrorCause::Message(m) => m.clone(),
            ErrorCause::Transport(e) => e.to_string(),
        }
    }
}

impl From<UsbError> for Error {
    fn from(err: UsbError) -> (r: Error) {
        Error { cause: ErrorCause::Transport(err) }
    }
}

impl vstd::std_specs::convert::FromSpecImpl<UsbError> for Error {
    open spec fn obeys_from_spec() -> bool {
        true
    }

    closed spec fn from_spec(err: UsbError) -> Error {
        Error { cause: ErrorCause::Transport(err) }
    }
}

impl<'a> From<&'a str> for Error {
    /// An error that carries the message alone
    fn from(string: &'a str) -> (r: Error)
        ensures
            r.kind() is None,
            r.transport() is None,
            r.message() == string@,
    {
        Error { cause: ErrorCause::Message(String::from_str(string)) }
    }
}

impl<'a> vstd::std_specs::convert::FromSpecImpl<&'a str> for Error {
    open spec fn obeys_from_spec() -> bool {
        false
    }

    closed spec fn from_spec(string: &'a str) -> Error {
        choose|e: Error| e.kind() is None && e.transport() is None && e.message() == string@
    }
}

/// The character for digit `d` (0 to 15) in lower case hexadecimal
pub open spec fn hex_digit(d: int) -> char {
    "0123456789abcdef"@[d]
}

/// `v` in decimal, zero padded to three digits
pub open spec fn dec3(v: u8) -> Seq<char> {
    let n = v as int;
    seq![hex_digit(n / 100), hex_digit(n / 10 % 10), hex_digit(n % 10)]
}

/// `v` in lower case hexadecimal, zero padded to four digits
pub open spec fn hex4(v: u16) -> Seq<char> {
    let n = v as int;
    seq![hex_digit(n / 4096), hex_digit(n / 256 % 16), hex_digit(n / 16 % 16), hex_digit(n % 16)]
}

/// `n` in decimal, without padding
pub open spec fn decimal(n: nat) -> Seq<char>
    decreases n,
{
    if n < 10 {
        seq![hex_digit(n as int)]
    } else {
        decimal(n / 10).push(hex_digit((n % 10) as int))
    }
}

/// `v` in decimal, with a leading `-` when negative
pub open spec fn signed_decimal(v: int) -> Seq<char> {
    if v < 0 {
        seq!['-'] + decimal((-v) as nat)
    } else {
        decimal(v as nat)
    }
}

/// The one-character string for digit `d`
fn digit_str(d: u16) -> (r: &'static str)
    requires
        d < 16,
    ensures
        r@ == seq![hex_digit(d as int)],
{
    let digits = "0123456789abcdef";
    proof {
        reveal_strlit("0123456789abcdef");
    }
    let r = digits.substring_ascii(d as usize, d as usize + 1);
    assert(r@ =~= seq![hex_digit(d as int)]);
    r
}

/// Appends `v` in decimal, zero padded to three digits
pub(crate) fn push_dec3(s: &mut String, v: u8)
    ensures
        final(s)@ == old(s)@ + dec3(v),
{
    let v = v as u16;
    s.append(digit_str(v / 100));
    s.append(digit_str(v / 10 % 10));
    s.append(digit_str(v % 10));
    assert(final(s)@ =~= old(s)@ + dec3(v as u8));
}

/// Appends `v` in lower case hexadecimal, zero padded to four digits
pub(crate) fn push_hex4(s: &mut String, v: u16)
    ensures
        final(s)@ == old(s)@ + hex4(v),
{
    s.append(digit_str(v / 4096));
    s.append(digit_str(v / 256 % 16));
    s.append(digit_str(v / 16 % 16));
    s.append(digit_str(v % 16));
    assert(final(s)@ =~= old(s)@ + hex4(v));
}

/// Appends `n` in decimal
fn push_decimal(s: &mut String, n: u16)
    ensures
        final(s)@ == old(s)@ + decimal(n as nat),
    decreases n,
{
    if n >= 10 {
        push_decimal(s, n / 10);
    }
    s.append(digit_str(n % 10));
    assert(final(s)@ =~= old(s)@ + decimal(n as nat));
}

/// Appends `v` in decimal, with a leading `-` when negative
pub(crate) fn push_signed_decimal(s: &mut String, v: i16)
    ensures
        final(s)@ == old(s)@ + signed_decimal(v as int),
{
    if v < 0 {
        s.append("-");
        proof {
            reveal_strlit("-");
        }
        let magnitude: u16 = (0 - (v as i32)) as u16;
        push_decimal(s, magnitude);
        assert(final(s)@ =~= old(s)@ + signed_decimal(v as int));
    } else {
        push_decimal(s, v as u16);
    }
}

} // verus!
