//! A lifecycle state and an address packed into one machine word.
//!
//! The low two bits of the word carry the state, the rest carries an
//! address whose own low two bits are zero.

use crate::state::State;
use vstd::prelude::*;

verus! {

/// The bits of a word that carry the state.
pub const STATE_MASK: usize = 0x3;

/// An address that leaves the state bits free.
pub open spec fn aligned(addr: usize) -> bool {
    addr & 0x3 == 0
}

/// The word that carries `addr` and `tag`.
pub open spec fn packed(addr: usize, tag: State) -> usize {
    addr | (tag.tag() as usize)
}

/// The address bits of a word.
pub open spec fn address_bits(word: usize) -> usize {
    word & !0x3usize
}

/// The state that a word's low bits encode.
pub open spec fn state_bits(word: usize) -> State {
    State::of_tag((word & 0x3) as u8)
}

/// Packing and splitting are inverse on aligned addresses.
pub proof fn lemma_tag_address_round_trip(addr: usize, tag: State)
    requires
        aligned(addr),
    ensures
        address_bits(packed(addr, tag)) == addr,
        state_bits(packed(addr, tag)) == tag,
        aligned(address_bits(packed(addr, tag))),
{
    let t: usize = tag.tag() as usize;
    assert((addr | t) & !0x3usize == addr && (addr | t) & 0x3 == t) by (bit_vector)
        requires
            addr & 0x3 == 0,
            t < 4,
    ;
}

/// Splitting a word and packing the parts again gives the word back.
pub proof fn lemma_split_then_pack(word: usize)
    ensures
        aligned(address_bits(word)),
        packed(address_bits(word), state_bits(word)) == word,
        address_bits(word) <= word,
{
    let t: usize = word & 0x3;
    assert(t < 4 && (word & !0x3usize) & 0x3 == 0 && ((word & !0x3usize) | t) == word && (word
        & !0x3usize) <= word) by (bit_vector)
        requires
            t == word & 0x3,
    ;
}

/// A word that packs a lifecycle state with the address of a queue head.
#[derive(Clone, Copy, Debug, PartialEq, Eq, Structural)]
pub struct TaggedWord {
    pub bits: usize,
}

impl TaggedWord {
    /// The address part.
    pub open spec fn addr(self) -> usize {
        address_bits(self.bits)
    }

    /// The state part.
    pub open spec fn tag(self) -> State {
        state_bits(self.bits)
    }

    /// Packs an aligned address with a state.
    pub fn combine(addr: usize, tag: State) -> (word: Self)
        requires
            aligned(addr),
        ensures
            word.bits == packed(addr, tag),
            word.addr() == addr,
            word.tag() == tag,
    {
        proof {
            lemma_tag_address_round_trip(addr, tag);
        }
        let t: u8 = tag.to_u8();
        TaggedWord { bits: addr | (t as usize) }
    }

    /// The address with the state bits cleared.
    pub fn strip_tag(self) -> (addr: usize)
        ensures
            addr == self.addr(),
            aligned(addr),
            addr <= self.bits,
    {
        proof {
            lemma_split_then_pack(self.bits);
        }
        self.bits & !STATE_MASK
    }

    /// The state in the low bits.
    pub fn tag_of(self) -> (tag: State)
        ensures
            tag == self.tag(),
    {
        let bits: usize = self.bits;
        let low: usize = bits & STATE_MASK;
        assert(low < 4) by (bit_vector)
            requires
                low == bits & 0x3,
        ;
        State::from_u8(low as u8)
    }

    /// The same address under another state.
    pub fn with_tag(self, tag: State) -> (word: Self)
        ensures
            word.bits == packed(self.addr(), tag),
            word.addr() == self.addr(),
            word.tag() == tag,
    {
        TaggedWord::combine(self.strip_tag(), tag)
    }

    /// A word with no address: the form of every state but `Running`.
    pub fn bare(tag: State) -> (word: Self)
        ensures
            word.addr() == 0,
            word.tag() == tag,
            word.bits == tag.tag(),
    {
        assert(0usize & 0x3 == 0) by (bit_vector);
        let word = TaggedWord::combine(0, tag);
        let ghost t: usize = tag.tag() as usize;
        assert(0usize | t == t) by (bit_vector);
        word
    }
}

} // verus!
