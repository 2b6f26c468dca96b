use byteorder::{ByteOrder, LittleEndian};
use vstd::prelude::*;

verus! {

/// Size of the flat address space, in bytes.
pub const MEMORY_SIZE: usize = 0x10000;

/// The 16-bit word whose low half is `lo` and high half is `hi`.
pub open spec fn word_of(lo: u8, hi: u8) -> u16 {
    (lo as int + 256 * hi as int) as u16
}

/// Low half of a word.
pub open spec fn low_byte(w: u16) -> u8 {
    (w % 256) as u8
}

/// High half of a word.
pub open spec fn high_byte(w: u16) -> u8 {
    (w / 256) as u8
}

/// Addition on the 16-bit address bus, modulo 2^16.
pub open spec fn wrap16(v: int) -> u16 {
    (v % 0x10000) as u16
}

/// Addition on 8-bit registers, modulo 2^8.
pub open spec fn wrap8(v: int) -> u8 {
    (v % 0x100) as u8
}

/// A memory whose every byte is zero.
pub open spec fn zero_memory() -> Seq<u8> {
    Seq::new(0x10000, |i: int| 0u8)
}

/// The byte stored at `addr`.
pub open spec fn byte_at(m: Seq<u8>, addr: u16) -> u8 {
    m[addr as int]
}

/// The little-endian word stored at `addr` and the address after it.
pub open spec fn word_at(m: Seq<u8>, addr: u16) -> u16 {
    word_of(m[addr as int], m[wrap16(addr + 1) as int])
}

/// `m` with the word `w` stored little-endian at `addr` and the address after it.
pub open spec fn store_word(m: Seq<u8>, addr: u16, w: u16) -> Seq<u8> {
    m.update(addr as int, low_byte(w)).update(wrap16(addr + 1) as int, high_byte(w))
}

/// Word writes are byte-reversible: after writing `w` at `addr`, the bytes at
/// `addr` and the address after it are the low and high halves of `w`, and
/// reading the word back gives `w`.
pub proof fn lemma_word_round_trip(m: Seq<u8>, addr: u16, w: u16)
    requires
        m.len() == MEMORY_SIZE,
    ensures
        byte_at(store_word(m, addr, w), addr) == low_byte(w),
        byte_at(store_word(m, addr, w), wrap16(addr + 1)) == high_byte(w),
        word_at(store_word(m, addr, w), addr) == w,
{
}

/// Relies on byteorder's `LittleEndian::read_u16`: the byte at the lower index is the low half.
#[verifier::external_body]
pub(crate) fn u16_from_le(lo: u8, hi: u8) -> (r: u16)
    ensures
        r == word_of(lo, hi),
{
    LittleEndian::read_u16(&[lo, hi])
}

/// Relies on byteorder's `LittleEndian::write_u16`: the low half goes to the lower index.
#[verifier::external_body]
pub(crate) fn u16_to_le(w: u16) -> (r: (u8, u8))
    ensures
        r.0 == low_byte(w),
        r.1 == high_byte(w),
{
    let mut buf: [u8; 2] = [0, 0];
    LittleEndian::write_u16(&mut buf, w);
    (buf[0], buf[1])
}

/// A flat 64 KiB byte-addressable store.
#[derive(Clone, Copy)]
pub struct Memory {
    pub data: [u8; 0x10000],
}

impl View for Memory {
    type V = Seq<u8>;

    open spec fn view(&self) -> Seq<u8> {
        self.data@
    }
}

impl Memory {
    /// A memory whose every byte is zero.
    pub fn build_memory() -> (r: Memory)
        ensures
            r@ == zero_memory(),
    {
        let r = Memory { data: [0u8; 0x10000] };
        assert(r@ =~= zero_memory());
        r
    }

    pub fn read_byte(&self, address: u16) -> (r: u8)
        ensures
            r == byte_at(self@, address),
    {
        self.data[address as usize]
    }

    /// Reads the little-endian word at `address`; the high half comes from the
    /// next address, wrapping past 0xFFFF to 0x0000.
    pub fn read_word(&self, address: u16) -> (r: u16)
        ensures
            r == word_at(self@, address),
    {
        let lo = self.data[address as usize];
        let hi = self.data[address.wrapping_add(1) as usize];
        u16_from_le(lo, hi)
    }

    pub fn write_byte(&mut self, address: u16, data: u8)
        ensures
            final(self)@ == old(self)@.update(address as int, data),
    {
        self.data[address as usize] = data;
    }

    /// Writes `data` little-endian: low half at `address`, high half at the next
    /// address, wrapping past 0xFFFF to 0x0000.
    pub fn write_word(&mut self, address: u16, data: u16)
        ensures
            final(self)@ == store_word(old(self)@, address, data),
    {
        let (lo, hi) = u16_to_le(data);
        self.write_byte(address, lo);
        self.write_byte(address.wrapping_add(1), hi);
    }
}

} // verus!
