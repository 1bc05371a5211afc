//! The board's MAC address.

use vstd::prelude::*;

verus! {

/// A MAC address: six bytes, the first one first.
#[derive(Debug, Default, Clone, Copy, PartialEq, Eq, PartialOrd, Ord)]
pub struct MacAddress(pub [u8; 6]);

/// The word that holds four bytes, the first in its lowest bits.
pub open spec fn pack_bytes(b0: u8, b1: u8, b2: u8, b3: u8) -> u32 {
    (b0 as u32) | ((b1 as u32) << 8) | ((b2 as u32) << 16) | ((b3 as u32) << 24)
}

/// The byte of `word` at place `index`, counted from its lowest bits.
pub open spec fn byte_of(word: u32, index: u32) -> u8 {
    ((word >> (8 * index)) & 0xff) as u8
}

/// Each byte that was packed into a word is found again at its place.
pub proof fn lemma_pack_bytes(b0: u8, b1: u8, b2: u8, b3: u8)
    ensures
        byte_of(pack_bytes(b0, b1, b2, b3), 0) == b0,
        byte_of(pack_bytes(b0, b1, b2, b3), 1) == b1,
        byte_of(pack_bytes(b0, b1, b2, b3), 2) == b2,
        byte_of(pack_bytes(b0, b1, b2, b3), 3) == b3,
{
    assert(byte_of(pack_bytes(b0, b1, b2, b3), 0) == b0) by (bit_vector);
    assert(byte_of(pack_bytes(b0, b1, b2, b3), 1) == b1) by (bit_vector);
    assert(byte_of(pack_bytes(b0, b1, b2, b3), 2) == b2) by (bit_vector);
    assert(byte_of(pack_bytes(b0, b1, b2, b3), 3) == b3) by (bit_vector);
}

fn pack(b0: u8, b1: u8, b2: u8, b3: u8) -> (word: u32)
    ensures
        word == pack_bytes(b0, b1, b2, b3),
{
    (b0 as u32) | ((b1 as u32) << 8) | ((b2 as u32) << 16) | ((b3 as u32) << 24)
}

fn unpack(word: u32, index: u32) -> (byte: u8)
    requires
        index < 4,
    ensures
        byte == byte_of(word, index),
{
    let shifted: u32 = (word >> (8 * index)) & 0xff;
    assert(shifted < 256) by (bit_vector)
        requires
            shifted == (word >> (8 * index)) & 0xff,
    ;
    shifted as u8
}

/// The upper-case hexadecimal digit for a number below sixteen.
pub open spec fn spec_hex_digit(n: u8) -> char {
    if n == 0 {
        '0'
    } else if n == 1 {
        '1'
    } else if n == 2 {
        '2'
    } else if n == 3 {
        '3'
    } else if n == 4 {
        '4'
    } else if n == 5 {
        '5'
    } else if n == 6 {
        '6'
    } else if n == 7 {
        '7'
    } else if n == 8 {
        '8'
    } else if n == 9 {
        '9'
    } else if n == 10 {
        'A'
    } else if n == 11 {
        'B'
    } else if n == 12 {
        'C'
    } else if n == 13 {
        'D'
    } else if n == 14 {
        'E'
    } else {
        'F'
    }
}

/// The text of one byte of an address whose last byte is `last`: two
/// hexadecimal digits, and a colon unless the byte equals the last one.
pub open spec fn byte_text(byte: u8, last: u8) -> Seq<char> {
    let digits = seq![spec_hex_digit(byte / 16), spec_hex_digit(byte % 16)];
    if byte != last {
        digits.push(':')
    } else {
        digits
    }
}

/// `String::push` appends the character to the end of the string.
pub assume_specification[ String::push ](text: &mut String, ch: char)
    ensures
        final(text)@ == old(text)@.push(ch),
;

/// The upper-case hexadecimal digit for a number below sixteen.
#[verifier::when_used_as_spec(spec_hex_digit)]
pub fn hex_digit(n: u8) -> (digit: char)
    requires
        n < 16,
    ensures
        digit == spec_hex_digit(n),
{
    if n == 0 {
        '0'
    } else if n == 1 {
        '1'
    } else if n == 2 {
        '2'
    } else if n == 3 {
        '3'
    } else if n == 4 {
        '4'
    } else if n == 5 {
        '5'
    } else if n == 6 {
        '6'
    } else if n == 7 {
        '7'
    } else if n == 8 {
        '8'
    } else if n == 9 {
        '9'
    } else if n == 10 {
        'A'
    } else if n == 11 {
        'B'
    } else if n == 12 {
        'C'
    } else if n == 13 {
        'D'
    } else if n == 14 {
        'E'
    } else {
        'F'
    }
}

fn push_byte(text: &mut String, byte: u8, last: u8)
    ensures
        final(text)@ == old(text)@ + byte_text(byte, last),
{
    text.push(hex_digit(byte / 16));
    text.push(hex_digit(byte % 16));
    if byte != last {
        text.push(':');
    }
    assert(text@ =~= old(text)@ + byte_text(byte, last));
}

impl MacAddress {
    /// The address of six zero bytes.
    pub open spec fn spec_zero() -> MacAddress {
        MacAddress([0u8, 0u8, 0u8, 0u8, 0u8, 0u8])
    }

    /// The two words that hold the address: four bytes, then two bytes and
    /// two bytes of padding.
    pub open spec fn words(&self) -> Seq<u32> {
        seq![
            pack_bytes(self.0[0], self.0[1], self.0[2], self.0[3]),
            pack_bytes(self.0[4], self.0[5], 0, 0),
        ]
    }

    /// The address that the first two of `words` hold.
    pub open spec fn from_words(words: Seq<u32>) -> MacAddress {
        MacAddress(
            [
                byte_of(words[0], 0),
                byte_of(words[0], 1),
                byte_of(words[0], 2),
                byte_of(words[0], 3),
                byte_of(words[1], 0),
                byte_of(words[1], 1),
            ],
        )
    }

    /// The address is found again from its two words, whatever follows
    /// them.
    pub proof fn lemma_round_trip(&self, rest: Seq<u32>)
        ensures
            self.words().len() == 2,
            Self::from_words(self.words() + rest) == *self,
    {
        lemma_pack_bytes(self.0[0], self.0[1], self.0[2], self.0[3]);
        lemma_pack_bytes(self.0[4], self.0[5], 0, 0);
        assert(Self::from_words(self.words() + rest).0 =~= self.0);
    }

    /// The address of six zero bytes.
    #[verifier::when_used_as_spec(spec_zero)]
    pub fn zero() -> (address: MacAddress)
        ensures
            address == Self::spec_zero(),
    {
        MacAddress([0u8, 0u8, 0u8, 0u8, 0u8, 0u8])
    }

    /// Appends the two words of the address to `out`.
    pub fn encode(&self, out: &mut Vec<u32>)
        ensures
            final(out)@ == old(out)@ + self.words(),
    {
        out.push(pack(self.0[0], self.0[1], self.0[2], self.0[3]));
        out.push(pack(self.0[4], self.0[5], 0, 0));
        assert(out@ =~= old(out)@ + self.words());
    }

    /// Reads the address from the first two of `words`.
    pub fn decode(words: &[u32]) -> (address: MacAddress)
        requires
            words@.len() >= 2,
        ensures
            address == Self::from_words(words@),
    {
        let address = MacAddress(
            [
                unpack(words[0], 0),
                unpack(words[0], 1),
                unpack(words[0], 2),
                unpack(words[0], 3),
                unpack(words[1], 0),
                unpack(words[1], 1),
            ],
        );
        assert(address.0 =~= Self::from_words(words@).0);
        address
    }

    /// The address as text: each byte as two hexadecimal digits, with a
    /// colon after every byte that differs from the last one.
    pub open spec fn spec_to_text(&self) -> Seq<char> {
        byte_text(self.0[0], self.0[5]) + byte_text(self.0[1], self.0[5]) + byte_text(
            self.0[2],
            self.0[5],
        ) + byte_text(self.0[3], self.0[5]) + byte_text(self.0[4], self.0[5]) + byte_text(
            self.0[5],
            self.0[5],
        )
    }

    /// The address as text, such as `B8:27:EB:12:34:56`.
    ///
    /// The colon after a byte is left out where the byte equals the last
    /// one, so that no colon ends the text.
    pub fn to_text(&self) -> (text: String)
        ensures
            text@ == self.spec_to_text(),
    {
        let last: u8 = self.0[5];
        let mut text = String::new();
        push_byte(&mut text, self.0[0], last);
        push_byte(&mut text, self.0[1], last);
        push_byte(&mut text, self.0[2], last);
        push_byte(&mut text, self.0[3], last);
        push_byte(&mut text, self.0[4], last);
        push_byte(&mut text, self.0[5], last);
        assert(text@ =~= self.spec_to_text());
        text
    }
}

} // verus!
