//! Main memory (64 KiB, addressed by 16 bits) and the 256-entry port banks.
use vstd::prelude::*;
use vstd::array::spec_array_update;
use crate::program_counter::offset;

verus! {

/// The 65,536 bytes of main memory. Every address is readable and writable.
#[derive(Debug)]
pub struct InternalMemory(pub [u8; 65536]);

/// One bank of 256 I/O ports, each holding a byte.
#[derive(Debug)]
pub struct IOMemory(pub [u8; 256]);

/// `memory` after storing `bytes` one by one from `start`, wrapping at the
/// top of memory (a later byte overwrites an earlier one at the same address).
pub open spec fn loaded(memory: InternalMemory, bytes: Seq<u8>, start: u16) -> InternalMemory
    decreases bytes.len(),
{
    if bytes.len() == 0 {
        memory
    } else {
        loaded(memory, bytes.drop_last(), start).with(
            offset(start, bytes.len() - 1),
            bytes.last(),
        )
    }
}

/// After loading at most a memory's worth of bytes, each byte stands at its
/// address: byte `k` at `start + k` (wrapping).
pub proof fn lemma_loaded_byte(memory: InternalMemory, bytes: Seq<u8>, start: u16, k: int)
    requires
        bytes.len() <= 65536,
        0 <= k < bytes.len(),
    ensures
        loaded(memory, bytes, start).byte(offset(start, k)) == bytes[k],
    decreases bytes.len(),
{
    let last = bytes.len() - 1;
    if k < last {
        let (a, b) = (start + k, start + last);
        assert(a % 65536 != b % 65536) by {
            vstd::arithmetic::div_mod::lemma_fundamental_div_mod(a, 65536);
            vstd::arithmetic::div_mod::lemma_fundamental_div_mod(b, 65536);
            assert(a / 65536 <= b / 65536) by {
                vstd::arithmetic::div_mod::lemma_div_is_ordered(a, b, 65536);
            }
            if a % 65536 == b % 65536 {
                assert(b - a == 65536 * (b / 65536 - a / 65536));
                assert(b / 65536 - a / 65536 >= 1);
            }
        }
        lemma_loaded_byte(memory, bytes.drop_last(), start, k);
    }
}

impl InternalMemory {
    /// The byte at `address`.
    pub open spec fn byte(self, address: u16) -> u8 {
        self.0@[address as int]
    }

    /// This memory with `value` stored at `address`.
    pub open spec fn with(self, address: u16, value: u8) -> InternalMemory {
        InternalMemory(spec_array_update(self.0, address as int, value))
    }

    /// Memory with every byte zero.
    pub fn new() -> (r: Self)
        ensures
            forall|a: u16| r.byte(a) == 0,
    {
        InternalMemory([0u8; 65536])
    }

    pub fn get(&self, address: u16) -> (r: u8)
        ensures
            r == self.byte(address),
    {
        self.0[address as usize]
    }

    pub fn set(&mut self, address: u16, value: u8)
        ensures
            *final(self) == old(self).with(address, value),
    {
        self.0[address as usize] = value;
    }

    /// Stores the first `count` bytes of `bytes` from `start` on, wrapping
    /// past the top of memory.
    pub fn store_bytes(&mut self, bytes: &[u8], count: usize, start: u16)
        requires
            count <= bytes@.len(),
        ensures
            *final(self) == loaded(*old(self), bytes@.take(count as int), start),
    {
        let mut address: u16 = start;
        let mut i: usize = 0;
        while i < count
            invariant
                count <= bytes@.len(),
                0 <= i <= count,
                address == offset(start, i as int),
                *self == loaded(*old(self), bytes@.take(i as int), start),
            decreases count - i,
        {
            assert(bytes@.take(i + 1).drop_last() == bytes@.take(i as int));
            self.set(address, bytes[i]);
            address = address.wrapping_add(1);
            i = i + 1;
        }
    }

    /// Writes the bytes one by one from `start` on, as many as fit up to
    /// `end` (included); bytes beyond that are dropped.
    pub fn set_range(&mut self, start: u16, end: u16, bytes: Vec<u8>)
        requires
            start <= end,
        ensures
            *final(self) == loaded(
                *old(self),
                bytes@.take(vstd::math::min(bytes@.len() as int, end - start + 1)),
                start,
            ),
    {
        let room: usize = (end - start) as usize + 1;
        let count = if bytes.len() < room { bytes.len() } else { room };
        self.store_bytes(&bytes, count, start);
    }

    /// The bytes from `start` to `end`, both included.
    pub fn get_range(&self, start: u16, end: u16) -> (r: Vec<u8>)
        requires
            start <= end,
        ensures
            r@.len() == end - start + 1,
            forall|k: int| 0 <= k < r@.len() ==> r@[k] == self.byte((start + k) as u16),
    {
        let mut r: Vec<u8> = Vec::new();
        let length: u32 = (end - start) as u32 + 1;
        let mut i: u32 = 0;
        while i < length
            invariant
                length == end - start + 1,
                i <= length,
                r@.len() == i,
                forall|k: int| 0 <= k < r@.len() ==> r@[k] == self.byte((start + k) as u16),
            decreases length - i,
        {
            r.push(self.get((start as u32 + i) as u16));
            i = i + 1;
        }
        r
    }
}

/// Reading back after a store: the stored byte at its address, the old byte
/// elsewhere.
pub broadcast proof fn lemma_byte_with(m: InternalMemory, address: u16, value: u8, other: u16)
    ensures
        #[trigger] m.with(address, value).byte(other) == if other == address {
            value
        } else {
            m.byte(other)
        },
{
}

/// Reading back after a port write.
pub broadcast proof fn lemma_port_with(m: IOMemory, port: u8, value: u8, other: u8)
    ensures
        #[trigger] m.with(port, value).byte(other) == if other == port {
            value
        } else {
            m.byte(other)
        },
{
}

impl IOMemory {
    /// The byte held by `port`.
    pub open spec fn byte(self, port: u8) -> u8 {
        self.0@[port as int]
    }

    /// This bank with `value` held by `port`.
    pub open spec fn with(self, port: u8, value: u8) -> IOMemory {
        IOMemory(spec_array_update(self.0, port as int, value))
    }

    /// A bank with every port zero.
    pub fn new() -> (r: Self)
        ensures
            forall|p: u8| r.byte(p) == 0,
    {
        IOMemory([0u8; 256])
    }

    pub fn get(&self, port: u8) -> (r: u8)
        ensures
            r == self.byte(port),
    {
        self.0[port as usize]
    }

    pub fn set(&mut self, port: u8, value: u8)
        ensures
            *final(self) == old(self).with(port, value),
    {
        self.0[port as usize] = value;
    }
}

} // verus!
