//! The text console: what goes over the serial line for a piece of text.

use vstd::prelude::*;
use vstd::string::StrSliceExecFns;

verus! {

/// The byte that a character is sent as: its lowest eight bits.
pub open spec fn low_byte(c: char) -> u8 {
    ((c as u32) & 0xff) as u8
}

/// The bytes that one character is sent as. A line feed is sent as a
/// carriage return and a line feed.
pub open spec fn char_bytes(c: char) -> Seq<u8> {
    if c == '\n' {
        seq![13u8, low_byte(c)]
    } else {
        seq![low_byte(c)]
    }
}

/// The bytes that a text is sent as: those of its characters, in order.
pub open spec fn spec_console_bytes(text: Seq<char>) -> Seq<u8>
    decreases text.len(),
{
    if text.len() == 0 {
        Seq::empty()
    } else {
        spec_console_bytes(text.drop_last()) + char_bytes(text.last())
    }
}

/// The bytes of a text that ends in `c` are those of the text before it and
/// those of `c`.
pub proof fn lemma_console_bytes_push(text: Seq<char>, c: char)
    ensures
        spec_console_bytes(text.push(c)) == spec_console_bytes(text) + char_bytes(c),
{
    assert(text.push(c).drop_last() =~= text);
}

/// Every character is sent as one byte, but a line feed as two.
pub proof fn lemma_console_bytes_len(text: Seq<char>)
    ensures
        text.len() <= spec_console_bytes(text).len() <= 2 * text.len(),
    decreases text.len(),
{
    if text.len() > 0 {
        lemma_console_bytes_len(text.drop_last());
    }
}

/// The bytes to send over the serial line for `text`.
pub fn console_bytes(text: &str) -> (bytes: Vec<u8>)
    ensures
        bytes@ == spec_console_bytes(text@),
{
    let count: usize = text.unicode_len();
    let mut bytes: Vec<u8> = Vec::new();
    let mut index: usize = 0;
    while index < count
        invariant
            index <= count,
            count == text@.len(),
            bytes@ == spec_console_bytes(text@.subrange(0, index as int)),
        decreases count - index,
    {
        let c: char = text.get_char(index);
        proof {
            lemma_console_bytes_push(text@.subrange(0, index as int), c);
            assert(text@.subrange(0, index as int).push(c) =~= text@.subrange(0, index + 1));
        }
        if c == '\n' {
            bytes.push(13u8);
        }
        let point: u32 = c as u32;
        let code: u32 = point & 0xff;
        assert(code < 256) by (bit_vector)
            requires
                code == point & 0xff,
        ;
        bytes.push(code as u8);
        assert(bytes@ =~= spec_console_bytes(text@.subrange(0, index as int)) + char_bytes(c));
        index += 1;
    }
    assert(text@.subrange(0, count as int) =~= text@);
    bytes
}

} // verus!
