//! The flat 64 KiB byte-addressable memory.
//!
//! Addresses are 16 bits wide and every address is backed by storage. Words
//! are two consecutive bytes with the low byte at the lower address; the
//! successor of address `0xFFFF` is address `0x0000`.

use vstd::prelude::*;

verus! {

/// Number of bytes in the address space.
pub const MEMORY_SIZE: usize = 0x1_0000;

/// The low eight bits of a word.
pub open spec fn low_byte(value: u16) -> u8 {
    (value & 0xff) as u8
}

/// The high eight bits of a word.
pub open spec fn high_byte(value: u16) -> u8 {
    (value >> 8) as u8
}

/// The word whose low eight bits are `low` and whose high eight bits are `high`.
pub open spec fn word_of(low: u8, high: u8) -> u16 {
    (low as u16) | ((high as u16) << 8)
}

/// The word stored at `address`: the byte at `address` is its low half, the
/// byte at the following address (wrapping at the end of memory) its high half.
pub open spec fn word_at(bytes: Seq<u8>, address: u16) -> u16 {
    word_of(bytes[address as int], bytes[address.wrapping_add(1) as int])
}

/// The memory contents after storing the word `value` at `address`:
/// first the low byte at `address`, then the high byte at the following address.
pub open spec fn store_word(bytes: Seq<u8>, address: u16, value: u16) -> Seq<u8> {
    bytes.update(address as int, low_byte(value)).update(
        address.wrapping_add(1) as int,
        high_byte(value),
    )
}

/// The 64 KiB of byte-addressable storage.
pub struct Memory {
    memory: [u8; 65536],
}

impl View for Memory {
    type V = Seq<u8>;

    /// The contents as a sequence of exactly `MEMORY_SIZE` bytes, indexed by address.
    open spec fn view(&self) -> Seq<u8> {
        Seq::new(MEMORY_SIZE as nat, |a: int| self.byte(a as u16))
    }
}

impl Memory {
    /// The byte stored at `address`.
    pub closed spec fn byte(&self, address: u16) -> u8 {
        self.memory@[address as int]
    }

    /// A memory with every byte zero.
    pub fn new() -> (memory: Self)
        ensures
            memory@ == Seq::new(MEMORY_SIZE as nat, |a: int| 0u8),
    {
        Memory { memory: [0u8; 65536] }
    }

    /// Reads the byte at `address`.
    pub fn get_byte(&self, address: u16) -> (value: u8)
        ensures
            value == self@[address as int],
    {
        self.memory[address as usize]
    }

    /// Stores `value` at `address` and leaves every other byte as it was.
    pub fn set_byte(&mut self, address: u16, value: u8)
        ensures
            final(self)@ == old(self)@.update(address as int, value),
    {
        self.memory[address as usize] = value;
    }

    /// Reads the word at `address`, low byte first. The high byte of a word
    /// at `0xFFFF` is the byte at `0x0000`; `address` need not be even.
    pub fn get_word_be(&self, address: u16) -> (value: u16)
        ensures
            value == word_at(self@, address),
    {
        let low = self.get_byte(address);
        let high = self.get_byte(address.wrapping_add(1));
        (low as u16) | ((high as u16) << 8)
    }

    /// Reads the word at `address`; the same read as [`Memory::get_word_be`].
    pub fn get_word(&self, address: u16) -> (value: u16)
        ensures
            value == word_at(self@, address),
    {
        self.get_word_be(address)
    }

    /// Stores the word `value` at `address`: the low byte at `address`, then
    /// the high byte at the following address, wrapping at the end of memory.
    pub fn set_word(&mut self, address: u16, value: u16)
        ensures
            final(self)@ == store_word(old(self)@, address, value),
    {
        self.set_byte(address, (value & 0xff) as u8);
        self.set_byte(address.wrapping_add(1), (value >> 8) as u8);
    }
}

/// A word that was stored at an address is the word read back from that
/// address, and it is the byte at the address combined with the byte at the
/// following address shifted up by eight bits. This holds at `0xFFFF` too,
/// where the following address is `0x0000`.
pub proof fn lemma_store_then_read_word(bytes: Seq<u8>, address: u16, value: u16)
    requires
        bytes.len() == MEMORY_SIZE,
    ensures
        word_at(store_word(bytes, address, value), address) == value,
        ({
            let stored = store_word(bytes, address, value);
            let following: int = if address == 0xFFFF {
                0
            } else {
                address + 1
            };
            value == (stored[address as int] as u16) | ((stored[following] as u16) << 8)
        }),
{
    assert(word_of(low_byte(value), high_byte(value)) == value) by (bit_vector);
}

} // verus!
