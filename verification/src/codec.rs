//! Layout arithmetic and the word-level encoding shared by every message.

use vstd::prelude::*;

verus! {

/// The least multiple of four that is not below `n`.
pub open spec fn round_up_to_multiple_of_4(n: nat) -> nat {
    ((n + 3) / 4 * 4) as nat
}

/// The least multiple of sixteen that is not below `n`.
pub open spec fn round_up_to_multiple_of_16(n: nat) -> nat {
    ((n + 15) / 16 * 16) as nat
}

/// The number of 32-bit words that hold `bytes` bytes.
pub open spec fn word_count(bytes: nat) -> nat {
    (bytes + 3) / 4
}

/// A run of `n` zero words.
pub open spec fn zeros(n: nat) -> Seq<u32> {
    Seq::new(n, |i: int| 0u32)
}

/// Rounding up to a multiple of four never loses a byte, adds fewer than
/// four, and lands on a multiple of four.
pub proof fn lemma_round_up_to_multiple_of_4(n: nat)
    ensures
        round_up_to_multiple_of_4(n) >= n,
        round_up_to_multiple_of_4(n) < n + 4,
        round_up_to_multiple_of_4(n) % 4 == 0,
        round_up_to_multiple_of_4(n) == 4 * word_count(n),
        n % 4 == 0 ==> round_up_to_multiple_of_4(n) == n,
{
}

/// Rounding up to a multiple of sixteen never loses a byte, adds fewer than
/// sixteen, and lands on a multiple of sixteen.
pub proof fn lemma_round_up_to_multiple_of_16(n: nat)
    ensures
        round_up_to_multiple_of_16(n) >= n,
        round_up_to_multiple_of_16(n) < n + 16,
        round_up_to_multiple_of_16(n) % 16 == 0,
        n % 16 == 0 ==> round_up_to_multiple_of_16(n) == n,
{
}

/// Rounds a byte count up to the next multiple of four.
pub fn next_multiple_of_4(n: u32) -> (rounded: u32)
    requires
        round_up_to_multiple_of_4(n as nat) <= u32::MAX,
    ensures
        rounded == round_up_to_multiple_of_4(n as nat),
{
    let remainder: u32 = n % 4;
    if remainder == 0 {
        n
    } else {
        n - remainder + 4
    }
}

/// Rounds a byte count up to the next multiple of sixteen.
pub fn next_multiple_of_16(n: u32) -> (rounded: u32)
    requires
        round_up_to_multiple_of_16(n as nat) <= u32::MAX,
    ensures
        rounded == round_up_to_multiple_of_16(n as nat),
{
    let remainder: u32 = n % 16;
    if remainder == 0 {
        n
    } else {
        n - remainder + 16
    }
}

/// Appends `count` zero words to `out`.
pub fn push_zeros(out: &mut Vec<u32>, count: usize)
    ensures
        final(out)@ == old(out)@ + zeros(count as nat),
{
    let mut done: usize = 0;
    while done < count
        invariant
            done <= count,
            out@ == old(out)@ + zeros(done as nat),
        decreases count - done,
    {
        out.push(0u32);
        done += 1;
        assert(out@ =~= old(out)@ + zeros(done as nat));
    }
}

/// A value with a fixed layout in the property buffer.
///
/// The layout is given as a sequence of 32-bit words. A value whose size in
/// bytes is no multiple of four fills its last word up with zero bytes.
pub trait Payload: Sized {
    /// The exact size of the value in bytes, before any rounding.
    spec fn byte_size() -> nat;

    /// The words that the value is encoded as.
    spec fn words(&self) -> Seq<u32>;

    /// The value that stands at the front of a run of words.
    spec fn from_words(words: Seq<u32>) -> Self;

    /// The encoding has the length that the size gives.
    proof fn lemma_length(&self)
        ensures
            self.words().len() == word_count(Self::byte_size()),
    ;

    /// Decoding the encoding gives the value back, whatever follows it.
    proof fn lemma_round_trip(&self, rest: Seq<u32>)
        ensures
            Self::from_words(self.words() + rest) == *self,
    ;

    /// The exact size of the value in bytes.
    fn size() -> (n: u32)
        requires
            Self::byte_size() <= u32::MAX,
        ensures
            n == Self::byte_size(),
    ;

    /// The number of words that the value is encoded as.
    fn word_len() -> (n: usize)
        requires
            word_count(Self::byte_size()) <= usize::MAX,
        ensures
            n == word_count(Self::byte_size()),
    ;

    /// Appends the value's words to `out`.
    fn encode(&self, out: &mut Vec<u32>)
        ensures
            final(out)@ == old(out)@ + self.words(),
    ;

    /// Reads the value at the front of `words`.
    fn decode(words: &[u32]) -> (value: Self)
        requires
            words@.len() >= word_count(Self::byte_size()),
        ensures
            value == Self::from_words(words@),
    ;
}

} // verus!
