//! The byte region: a writable, file-backed range of bytes whose length is fixed
//! for as long as the region lives. Everything above reads and writes the file
//! through the few operations of this module.

use vstd::prelude::*;

verus! {

/// Trusted: `memmap2::MmapMut`, a writable memory map, opaque to the verifier.
#[verifier::external_type_specification]
#[verifier::external_body]
pub struct ExMmapMut(memmap2::MmapMut);

/// Trusted: `std::io::Error`, carried through unread.
#[verifier::external_type_specification]
#[verifier::external_body]
pub struct ExIoError(std::io::Error);

/// The bytes that a `memmap2::MmapMut` dereferences to. They change only through a
/// `&mut` to the map: the file is left alone from outside, as the mapping crate
/// demands of whoever opens a file-backed map.
pub uninterp spec fn mapped_bytes(map: memmap2::MmapMut) -> Seq<u8>;

/// Trusted: the slice that `memmap2::MmapMut` dereferences to has as many bytes as
/// the map holds.
#[verifier::external_body]
fn map_len(map: &memmap2::MmapMut) -> (len: usize)
    ensures
        len == mapped_bytes(*map).len(),
{
    map.len()
}

/// Trusted: indexing the slice that `memmap2::MmapMut` dereferences to gives the
/// byte at that place.
#[verifier::external_body]
fn map_read(map: &memmap2::MmapMut, at: usize) -> (byte: u8)
    requires
        at < mapped_bytes(*map).len(),
    ensures
        byte == mapped_bytes(*map)[at as int],
{
    map[at]
}

/// Trusted: assigning through the mutable slice that `memmap2::MmapMut`
/// dereferences to replaces the byte at that place and no other.
#[verifier::external_body]
fn map_write(map: &mut memmap2::MmapMut, at: usize, byte: u8)
    requires
        at < mapped_bytes(*old(map)).len(),
    ensures
        mapped_bytes(*final(map)) == mapped_bytes(*old(map)).update(at as int, byte),
{
    map[at] = byte;
}

/// Trusted: the address of the first byte of the slice that `memmap2::MmapMut`
/// dereferences to. Nothing is promised of it: the system chooses it.
#[verifier::external_body]
fn map_address(map: &memmap2::MmapMut) -> (address: usize) {
    map.as_ptr() as usize
}

/// Trusted: `memmap2::MmapMut::flush` asks the system to write the map back and
/// reports what the system said. The bytes of the map stay as they are.
#[verifier::external_body]
fn map_flush(map: &memmap2::MmapMut) -> (outcome: Result<(), std::io::Error>) {
    map.flush()
}

/// Trusted: `memmap2::MmapMut::lock` asks the system to keep the pages of the map
/// in memory and reports what the system said. The bytes of the map stay as they are.
#[verifier::external_body]
fn map_lock(map: &mut memmap2::MmapMut) -> (outcome: Result<(), std::io::Error>)
    ensures
        mapped_bytes(*final(map)) == mapped_bytes(*old(map)),
{
    map.lock()
}

/// Whether bit `k` of `byte` is set, counting from the least significant bit.
pub open spec fn byte_bit(byte: u8, k: u8) -> bool {
    (byte >> k) & 1u8 == 1u8
}

/// `byte` with bit `k` set to `value`, counting from the least significant bit.
pub open spec fn with_bit(byte: u8, k: u8, value: bool) -> u8 {
    if value {
        byte | (1u8 << k)
    } else {
        byte & !(1u8 << k)
    }
}

/// The longest run of bits that the bit-slice crate can address.
pub open spec fn max_bits() -> int {
    usize::MAX as int / 8
}

/// Trusted: `bitvec::slice::BitSlice::<u8, Lsb0>::from_slice` over the bytes of the
/// map from `header` on, indexed at `index`. Bit `index` of such a slice is bit
/// `index % 8` of byte `index / 8`, counted from the least significant bit. The
/// crate panics on a slice too long for it and on an index out of range; both are
/// left out.
#[verifier::external_body]
fn map_bit(map: &memmap2::MmapMut, header: usize, index: usize) -> (bit: bool)
    requires
        header <= mapped_bytes(*map).len(),
        (mapped_bytes(*map).len() - header) * 8 <= max_bits(),
        index < (mapped_bytes(*map).len() - header) * 8,
    ensures
        bit == byte_bit(mapped_bytes(*map)[header + index / 8], (index % 8) as u8),
{
    bitvec::slice::BitSlice::<u8, bitvec::order::Lsb0>::from_slice(&map[header..])[index]
}

/// Trusted: `bitvec::slice::BitSlice::<u8, Lsb0>::from_slice_mut` over the bytes of
/// the map from `header` on, and `BitSlice::set` at `index`: bit `index % 8` of byte
/// `index / 8` takes the value, every other bit stays.
#[verifier::external_body]
fn map_set_bit(map: &mut memmap2::MmapMut, header: usize, index: usize, value: bool)
    requires
        header <= mapped_bytes(*old(map)).len(),
        (mapped_bytes(*old(map)).len() - header) * 8 <= max_bits(),
        index < (mapped_bytes(*old(map)).len() - header) * 8,
    ensures
        mapped_bytes(*final(map)) == mapped_bytes(*old(map)).update(
            header + index / 8,
            with_bit(mapped_bytes(*old(map))[header + index / 8], (index % 8) as u8, value),
        ),
{
    bitvec::slice::BitSlice::<u8, bitvec::order::Lsb0>::from_slice_mut(&mut map[header..]).set(
        index,
        value,
    );
}

/// Why an operation on a mapping did not succeed.
#[derive(Debug)]
pub enum MmapError {
    /// The advice asked for cannot be passed on to the system.
    Unsupported,
    /// The system refused; its error is carried as it came.
    Io(std::io::Error),
}

/// Turns what the system answered into the library's result: success stays success,
/// and an error comes back wrapped, itself unchanged.
pub fn io_outcome(outcome: Result<(), std::io::Error>) -> (result: Result<(), MmapError>)
    ensures
        match outcome {
            Ok(_) => result is Ok,
            Err(error) => result == Err::<(), MmapError>(MmapError::Io(error)),
        },
{
    match outcome {
        Ok(_) => Ok(()),
        Err(error) => Err(MmapError::Io(error)),
    }
}

/// `bytes` with `data` laid over it from `start` on.
pub open spec fn overwrite(bytes: Seq<u8>, start: int, data: Seq<u8>) -> Seq<u8> {
    bytes.subrange(0, start) + data + bytes.subrange(start + data.len(), bytes.len() as int)
}

/// A byte region: a writable map together with the address it was found at when
/// the region was made.
pub struct Region {
    map: memmap2::MmapMut,
    base: usize,
}

impl Region {
    /// The bytes of the region.
    pub closed spec fn view(&self) -> Seq<u8> {
        mapped_bytes(self.map)
    }

    /// The address of the first byte.
    pub closed spec fn base(&self) -> usize {
        self.base
    }

    /// Takes ownership of an opened map.
    pub fn new(map: memmap2::MmapMut) -> (region: Region)
        ensures
            region@ == mapped_bytes(map),
    {
        let base: usize = map_address(&map);
        Region { map, base }
    }

    /// Number of bytes in the region.
    pub fn len(&self) -> (len: usize)
        ensures
            len == self@.len(),
    {
        map_len(&self.map)
    }

    /// Address of the first byte.
    pub fn base_address(&self) -> (address: usize)
        ensures
            address == self.base(),
    {
        self.base
    }

    /// The map underneath, for operations that only look at it.
    pub fn mapping(&self) -> (map: &memmap2::MmapMut)
        ensures
            mapped_bytes(*map) == self@,
    {
        &self.map
    }

    /// The byte at `at`.
    pub fn read(&self, at: usize) -> (byte: u8)
        requires
            at < self@.len(),
        ensures
            byte == self@[at as int],
    {
        map_read(&self.map, at)
    }

    /// Replaces the byte at `at`.
    pub fn write(&mut self, at: usize, byte: u8)
        requires
            at < old(self)@.len(),
        ensures
            final(self)@ == old(self)@.update(at as int, byte),
            final(self).base() == old(self).base(),
    {
        map_write(&mut self.map, at, byte);
    }

    /// Copies `count` bytes out, from `start` on.
    pub fn read_range(&self, start: usize, count: usize) -> (bytes: Vec<u8>)
        requires
            start + count <= self@.len(),
        ensures
            bytes@ == self@.subrange(start as int, start + count),
    {
        let len: usize = self.len();
        let mut bytes: Vec<u8> = Vec::new();
        let mut i: usize = 0;
        while i < count
            invariant
                i <= count,
                start + count <= self@.len() == len,
                bytes@ == self@.subrange(start as int, start + i),
            decreases count - i,
        {
            let byte: u8 = self.read(start + i);
            bytes.push(byte);
            i = i + 1;
        }
        bytes
    }

    /// Lays `data` over the region from `start` on; every other byte stays.
    pub fn write_range(&mut self, start: usize, data: &[u8])
        requires
            start + data@.len() <= old(self)@.len(),
        ensures
            final(self)@ == overwrite(old(self)@, start as int, data@),
            final(self).base() == old(self).base(),
    {
        let len: usize = self.len();
        let mut i: usize = 0;
        while i < data.len()
            invariant
                i <= data@.len(),
                start + data@.len() <= old(self)@.len() == len,
                self@ == overwrite(old(self)@, start as int, data@.subrange(0, i as int)),
                self.base() == old(self).base(),
            decreases data@.len() - i,
        {
            let byte: u8 = data[i];
            self.write(start + i, byte);
            i = i + 1;
        }
    }

    /// Bit `index` of the bytes from `header` on: bit `index % 8` of byte `index / 8`,
    /// counted from the least significant bit.
    pub fn bit(&self, header: usize, index: usize) -> (bit: bool)
        requires
            header <= self@.len(),
            (self@.len() - header) * 8 <= max_bits(),
            index < (self@.len() - header) * 8,
        ensures
            bit == byte_bit(self@[header + index / 8], (index % 8) as u8),
    {
        map_bit(&self.map, header, index)
    }

    /// Sets bit `index` of the bytes from `header` on; every other bit stays.
    pub fn set_bit(&mut self, header: usize, index: usize, value: bool)
        requires
            header <= old(self)@.len(),
            (old(self)@.len() - header) * 8 <= max_bits(),
            index < (old(self)@.len() - header) * 8,
        ensures
            final(self)@ == old(self)@.update(
                header + index / 8,
                with_bit(old(self)@[header + index / 8], (index % 8) as u8, value),
            ),
            final(self).base() == old(self).base(),
    {
        map_set_bit(&mut self.map, header, index, value);
    }

    /// Asks the system to make the bytes written so far durable. An error of the
    /// system comes back as [`MmapError::Io`].
    pub fn flush(&self) -> (result: Result<(), MmapError>)
        ensures
            result matches Err(error) ==> error is Io,
    {
        io_outcome(map_flush(&self.map))
    }

    /// Asks the system to keep the pages of the region in memory. The bytes stay as
    /// they are; an error of the system comes back as [`MmapError::Io`].
    pub fn lock(&mut self) -> (result: Result<(), MmapError>)
        ensures
            final(self)@ == old(self)@,
            final(self).base() == old(self).base(),
            result matches Err(error) ==> error is Io,
    {
        io_outcome(map_lock(&mut self.map))
    }
}

} // verus!
