//! Painting a line of text on the multi-function display.

use vstd::prelude::*;
use vstd::string::*;
use crate::command::{
    lemma_pack_bytes, map_mfd_line_to_value, mfd_clear,
    mfd_line_command, X52Command, X52MFDLine, MFD_LINE_SIZE,
};

verus! {

/// `n` spaces
pub open spec fn spaces(n: int) -> Seq<u8> {
    Seq::new(n as nat, |_i: int| 0x20u8)
}

/// The text centered on a line of the MFD: padded with spaces on both sides
/// to 16 bytes, the odd space, if any, on the right
pub open spec fn centered(text: Seq<u8>) -> Seq<u8> {
    let left = (16 - text.len()) / 2;
    spaces(left) + text + spaces(16 - text.len() - left)
}

/// The command that writes two characters to a line, the first in the low
/// byte of the value and the second in the high byte
pub open spec fn mfd_chunk(line: X52MFDLine, first: u8, second: u8) -> X52Command {
    X52Command { index: mfd_line_command(line) as u16, value: (second * 256 + first) as u16 }
}

/// The commands that write the bytes to a line, two at a time; an odd last
/// byte is not sent
pub open spec fn mfd_chunks(line: X52MFDLine, bytes: Seq<u8>) -> Seq<X52Command> {
    Seq::new(bytes.len() / 2, |k: int| mfd_chunk(line, bytes[2 * k], bytes[2 * k + 1]))
}

/// The commands that paint the text on a line: a clear of the line, then the
/// centered text two characters at a time
pub open spec fn mfd_text_commands(line: X52MFDLine, text: Seq<u8>) -> Seq<X52Command> {
    seq![mfd_clear(line)] + mfd_chunks(line, centered(text))
}

/// The bytes that the values of the commands carry, two each, low byte first
pub open spec fn decode_chunks(commands: Seq<X52Command>) -> Seq<u8> {
    Seq::new(
        2 * commands.len(),
        |i: int|
            if i % 2 == 0 {
                (commands[i / 2].value % 256) as u8
            } else {
                (commands[i / 2].value / 256) as u8
            },
    )
}

/// Centers ASCII text of at most 16 bytes on a line of the MFD
pub fn center_mfd_text(text: &str) -> (r: Vec<u8>)
    requires
        text.is_ascii(),
        text.spec_bytes().len() <= MFD_LINE_SIZE,
    ensures
        r@ == centered(text.spec_bytes()),
        r@.len() == MFD_LINE_SIZE,
{
    let bytes = text.as_bytes();
    let len = bytes.len();
    let left = (MFD_LINE_SIZE - len) / 2;
    let right = MFD_LINE_SIZE - len - left;
    let mut r: Vec<u8> = Vec::new();
    let mut i: usize = 0;
    while i < left
        invariant
            i <= left,
            r@ == spaces(i as int),
        decreases left - i,
    {
        r.push(0x20);
        i += 1;
        assert(r@ =~= spaces(i as int));
    }
    i = 0;
    while i < len
        invariant
            i <= len,
            len == bytes@.len(),
            r@ == spaces(left as int) + bytes@.subrange(0, i as int),
        decreases len - i,
    {
        r.push(bytes[i]);
        i += 1;
        assert(r@ =~= spaces(left as int) + bytes@.subrange(0, i as int));
    }
    assert(bytes@.subrange(0, len as int) =~= bytes@);
    i = 0;
    while i < right
        invariant
            i <= right,
            r@ == spaces(left as int) + bytes@ + spaces(i as int),
        decreases right - i,
    {
        r.push(0x20);
        i += 1;
        assert(r@ =~= spaces(left as int) + bytes@ + spaces(i as int));
    }
    r
}

/// Writes the bytes to a line of the MFD, two at a time
///
/// The text is not checked: callers hand over the centered line.
pub fn write_mfd_line(line: &X52MFDLine, text: &Vec<u8>) -> (r: Vec<X52Command>)
    ensures
        r@ == mfd_chunks(*line, text@),
{
    let index = map_mfd_line_to_value(line) as u16;
    let mut r: Vec<X52Command> = Vec::new();
    let mut i: usize = 0;
    while i + 1 < text.len()
        invariant
            i % 2 == 0,
            i <= text@.len(),
            index == mfd_line_command(*line) as u16,
            r@.len() == i / 2,
            forall|k: int|
                0 <= k < r@.len() ==> #[trigger] r@[k] == mfd_chunk(
                    *line,
                    text@[2 * k],
                    text@[2 * k + 1],
                ),
        decreases text@.len() - i,
    {
        let first = text[i] as u16;
        let second = text[i + 1] as u16;
        proof {
            lemma_pack_bytes(second, first);
        }
        r.push(X52Command { index, value: (second << 8u16) | first });
        i += 2;
    }
    assert(r@ =~= mfd_chunks(*line, text@));
    r
}

/// Decoding the values of the commands that paint a line gives back the
/// centered text, and every one of them after the clear addresses the line.
pub proof fn lemma_mfd_text_round_trip(line: X52MFDLine, text: Seq<u8>)
    requires
        text.len() <= 16,
    ensures
        decode_chunks(mfd_text_commands(line, text).drop_first()) == centered(text),
        mfd_text_commands(line, text).len() == 9,
        forall|k: int|
            1 <= k < 9 ==> (#[trigger] mfd_text_commands(line, text)[k]).index
                == mfd_line_command(line) as u16,
{
    let c = centered(text);
    let chunks = mfd_text_commands(line, text).drop_first();
    assert(c.len() == 16);
    assert(chunks =~= mfd_chunks(line, c));
    assert forall|i: int| 0 <= i < 16 implies #[trigger] decode_chunks(chunks)[i] == c[i] by {
        let k = i / 2;
        let v = c[2 * k + 1] * 256 + c[2 * k];
        assert(chunks[k].value == v);
        assert(v % 256 == c[2 * k]);
        assert(v / 256 == c[2 * k + 1]);
    }
    assert(decode_chunks(chunks) =~= c);
}

} // verus!
