//! Typed views over a byte region: one value, a sequence of values after an
//! optional header, and a packed run of bits after an optional header. A view owns
//! its region, so no reference into the region outlives the view.

use crate::plain::PlainData;
use crate::region::{byte_bit, max_bits, overwrite, with_bit, MmapError, Region};
use core::marker::PhantomData;
use vstd::layout::{align_of, layout_for_type_is_valid, size_of};
use vstd::prelude::*;

verus! {

/// Whether `address + offset` is a multiple of the alignment of `T`.
pub open spec fn aligned<T>(address: usize, offset: usize) -> bool {
    (address + offset) % (align_of::<T>() as int) == 0
}

/// Tells whether the byte at `offset` from `address` is placed as a `T` must be.
pub fn is_aligned<T>(address: usize, offset: usize) -> (ok: bool)
    ensures
        ok == aligned::<T>(address, offset),
{
    layout_for_type_is_valid::<T>();
    let align: usize = core::mem::align_of::<T>();
    (address as u128 + offset as u128) % (align as u128) == 0
}

/// Whether a region of `len` bytes at `base` can be read as one `T`: it is exactly
/// as long as a `T` and placed as a `T` must be.
pub open spec fn fits_value<T>(len: nat, base: usize) -> bool {
    len == size_of::<T>() && aligned::<T>(base, 0)
}

/// A handle that asks for the bytes of a view to be made durable. It borrows the
/// region of the view that made it, so it is gone before the view is.
pub struct Flusher<'a> {
    region: &'a Region,
}

impl<'a> Flusher<'a> {
    /// The bytes this handle flushes.
    pub closed spec fn bytes(&self) -> Seq<u8> {
        self.region@
    }

    /// Asks the system to make the bytes written so far durable. An error of the
    /// system comes back as [`MmapError::Io`].
    pub fn flush(&self) -> (result: Result<(), MmapError>)
        ensures
            result matches Err(error) ==> error is Io,
    {
        self.region.flush()
    }
}

/// One value of type `T` on a byte region.
pub struct MmapType<T: PlainData> {
    region: Region,
    marker: PhantomData<T>,
}

impl<T: PlainData> MmapType<T> {
    /// The view's invariant: its region fits one `T`.
    pub closed spec fn wf(&self) -> bool {
        fits_value::<T>(self.region@.len(), self.region.base())
    }

    /// The bytes underneath.
    pub closed spec fn bytes(&self) -> Seq<u8> {
        self.region@
    }

    /// The value that the bytes stand for.
    pub open spec fn view(&self) -> T {
        T::decode(self.bytes())
    }

    /// Lays a `T` over a region that fits one. The value is what the bytes of the
    /// region stand for.
    pub fn from(region: Region) -> (view: Self)
        requires
            fits_value::<T>(region@.len(), region.base()),
        ensures
            view.wf(),
            view.bytes() == region@,
            view@ == T::decode(region@),
    {
        MmapType { region, marker: PhantomData }
    }

    /// Lays a `T` over the region if the region fits one, and hands the region back
    /// untouched if it does not.
    pub fn try_from(region: Region) -> (result: Result<Self, Region>)
        ensures
            match result {
                Ok(view) => {
                    &&& fits_value::<T>(region@.len(), region.base())
                    &&& view.wf()
                    &&& view.bytes() == region@
                    &&& view@ == T::decode(region@)
                },
                Err(back) => !fits_value::<T>(region@.len(), region.base()) && back == region,
            },
    {
        if region.len() == core::mem::size_of::<T>() && is_aligned::<T>(region.base_address(), 0) {
            Ok(Self::from(region))
        } else {
            Err(region)
        }
    }

    /// Lays a sequence of `T` over a whole region.
    pub fn slice_from(region: Region) -> (view: MmapSlice<T>)
        requires
            fits_slice::<T>(region@.len(), region.base(), 0),
        ensures
            view.wf(),
            view.bytes() == region@,
            view.header() == 0,
    {
        MmapSlice::with_header(region, 0)
    }

    /// Reads the value.
    pub fn get(&self) -> (value: T)
        requires
            self.wf(),
        ensures
            value == self@,
    {
        let bytes: Vec<u8> = self.region.read_range(0, core::mem::size_of::<T>());
        assert(bytes@ == self.region@);
        T::from_bytes(bytes.as_slice())
    }

    /// Replaces the value.
    pub fn set(&mut self, value: T)
        requires
            old(self).wf(),
        ensures
            final(self).wf(),
            final(self)@ == value,
    {
        proof {
            T::lemma_round_trip(value);
        }
        let bytes: Vec<u8> = value.to_bytes();
        self.region.write_range(0, bytes.as_slice());
    }

    /// Asks the system to keep the pages of the view in memory. The value stays.
    pub fn lock(&mut self) -> (result: Result<(), MmapError>)
        ensures
            final(self).wf() == old(self).wf(),
            final(self).bytes() == old(self).bytes(),
            result matches Err(error) ==> error is Io,
    {
        self.region.lock()
    }

    /// The region underneath, for operations that only look at it.
    pub fn region(&self) -> (region: &Region)
        ensures
            region@ == self.bytes(),
    {
        &self.region
    }

    /// A handle to flush the view explicitly at a later time.
    pub fn flusher(&self) -> (flusher: Flusher<'_>)
        ensures
            flusher.bytes() == self.bytes(),
    {
        Flusher { region: &self.region }
    }
}

/// Whether a region of `len` bytes at `base` can be read as a sequence of `T` after a
/// header of `header` bytes: the header lies within the region and is a whole number
/// of items long, what follows it is a whole number of items long, and the first item
/// is placed as a `T` must be.
pub open spec fn fits_slice<T>(len: nat, base: usize, header: usize) -> bool {
    &&& header <= len
    &&& header as int % (size_of::<T>() as int) == 0
    &&& (len - header) % (size_of::<T>() as int) == 0
    &&& aligned::<T>(base, header)
}

/// Number of items of type `T` that `len` bytes hold after a header.
pub open spec fn count_of<T>(len: nat, header: nat) -> nat {
    ((len - header) / (size_of::<T>() as int)) as nat
}

/// The item at `index` of the sequence that `bytes` hold after a header.
pub open spec fn item_at<T: PlainData>(bytes: Seq<u8>, header: nat, index: int) -> T {
    T::decode(
        bytes.subrange(header + index * size_of::<T>(), header + (index + 1) * size_of::<T>()),
    )
}

/// The sequence of items that `bytes` hold after a header.
pub open spec fn items_of<T: PlainData>(bytes: Seq<u8>, header: nat) -> Seq<T> {
    Seq::new(count_of::<T>(bytes.len(), header), |index: int| item_at::<T>(bytes, header, index))
}

/// A region of `n` items and a header holds a sequence of length `n`.
pub proof fn law_sequence_length<T: PlainData>(bytes: Seq<u8>, header: nat, n: nat)
    requires
        bytes.len() == n * size_of::<T>() + header,
    ensures
        items_of::<T>(bytes, header).len() == n,
{
    T::lemma_sized();
    let size = size_of::<T>() as int;
    assert((n * size) / size == n) by (nonlinear_arith)
        requires
            size > 0,
            n >= 0,
    ;
}

/// Reopening keeps the items: a sequence view laid over the bytes that another left
/// behind, after a header of the same length, holds what that view held.
pub proof fn law_sequence_reopened<T: PlainData>(before: MmapSlice<T>, after: MmapSlice<T>)
    requires
        after.bytes() == before.bytes(),
        after.header() == before.header(),
    ensures
        after@ == before@,
{
}

/// Reopening keeps the bits: a bit view laid over the bytes that another left behind,
/// after a header of the same length, holds what that view held.
pub proof fn law_bits_reopened(before: MmapBitSlice, after: MmapBitSlice)
    requires
        after.bytes() == before.bytes(),
        after.header() == before.header(),
    ensures
        after@ == before@,
{
}

/// Item `index` of `count` items of `size` bytes ends within the items.
proof fn lemma_item_within(index: int, count: int, size: int)
    requires
        0 <= index < count,
        0 < size,
    ensures
        0 <= index * size,
        index * size + size == (index + 1) * size,
        (index + 1) * size <= count * size,
{
    assert(0 <= index * size) by (nonlinear_arith)
        requires
            0 <= index,
            0 < size,
    ;
    assert(index * size + size == (index + 1) * size) by (nonlinear_arith);
    assert((index + 1) * size <= count * size) by (nonlinear_arith)
        requires
            index + 1 <= count,
            0 < size,
    ;
}

/// Two different items do not overlap.
proof fn lemma_items_apart(i: int, j: int, size: int)
    requires
        0 <= i,
        0 <= j,
        i != j,
        0 < size,
    ensures
        (j + 1) * size <= i * size || (i + 1) * size <= j * size,
{
    if j < i {
        assert((j + 1) * size <= i * size) by (nonlinear_arith)
            requires
                j + 1 <= i,
                0 < size,
        ;
    } else {
        assert((i + 1) * size <= j * size) by (nonlinear_arith)
            requires
                i + 1 <= j,
                0 < size,
        ;
    }
}

/// The bytes after the header are exactly `count_of` items long.
proof fn lemma_count_fills<T: PlainData>(len: nat, header: nat)
    requires
        header <= len,
        (len - header) % (size_of::<T>() as int) == 0,
    ensures
        count_of::<T>(len, header) * size_of::<T>() == len - header,
{
    T::lemma_sized();
    let size = size_of::<T>() as int;
    let rest = len - header;
    assert((rest / size) * size == rest) by (nonlinear_arith)
        requires
            size > 0,
            rest >= 0,
            rest % size == 0,
    ;
}

/// Writing one item leaves every other item as it was.
proof fn lemma_item_written<T: PlainData>(
    bytes: Seq<u8>,
    header: nat,
    index: int,
    value: T,
)
    requires
        header <= bytes.len(),
        (bytes.len() - header) % (size_of::<T>() as int) == 0,
        0 <= index < count_of::<T>(bytes.len(), header),
    ensures
        items_of::<T>(
            overwrite(bytes, header + index * size_of::<T>(), value.encode()),
            header,
        ) == items_of::<T>(bytes, header).update(index, value),
{
    T::lemma_sized();
    T::lemma_round_trip(value);
    lemma_count_fills::<T>(bytes.len(), header);
    let size = size_of::<T>() as int;
    let count = count_of::<T>(bytes.len(), header) as int;
    let at = header + index * size;
    let after = overwrite(bytes, at, value.encode());
    lemma_item_within(index, count, size);
    assert forall|j: int| 0 <= j < count implies #[trigger] item_at::<T>(after, header, j) == (
    if j == index {
        value
    } else {
        item_at::<T>(bytes, header, j)
    }) by {
        lemma_item_within(j, count, size);
        if j == index {
            assert(after.subrange(header + j * size, header + (j + 1) * size) == value.encode());
        } else {
            lemma_items_apart(index, j, size);
            assert(after.subrange(header + j * size, header + (j + 1) * size) == bytes.subrange(
                header + j * size,
                header + (j + 1) * size,
            ));
        }
    }
}

/// A sequence of values of type `T` on a byte region, after an optional header that
/// this layer never reads.
pub struct MmapSlice<T: PlainData> {
    region: Region,
    header: usize,
    count: usize,
    marker: PhantomData<T>,
}

impl<T: PlainData> MmapSlice<T> {
    /// The view's invariant: its region fits a sequence of `T` after the header, and
    /// the number of items is the one the region holds.
    pub closed spec fn wf(&self) -> bool {
        &&& fits_slice::<T>(self.region@.len(), self.region.base(), self.header)
        &&& self.count == count_of::<T>(self.region@.len(), self.header as nat)
    }

    /// The bytes underneath, header included.
    pub closed spec fn bytes(&self) -> Seq<u8> {
        self.region@
    }

    /// Length of the header in bytes.
    pub closed spec fn header(&self) -> nat {
        self.header as nat
    }

    /// The values that the bytes after the header stand for.
    pub open spec fn view(&self) -> Seq<T> {
        items_of::<T>(self.bytes(), self.header())
    }

    /// Lays a sequence of `T` over a whole region.
    pub fn from(region: Region) -> (view: Self)
        requires
            fits_slice::<T>(region@.len(), region.base(), 0),
        ensures
            view.wf(),
            view.bytes() == region@,
            view.header() == 0,
    {
        MmapType::<T>::slice_from(region)
    }

    /// Lays a sequence of `T` over the bytes of a region that follow a header of
    /// `header_size` bytes.
    pub fn with_header(region: Region, header_size: usize) -> (view: Self)
        requires
            fits_slice::<T>(region@.len(), region.base(), header_size),
        ensures
            view.wf(),
            view.bytes() == region@,
            view.header() == header_size,
            view@ == items_of::<T>(region@, header_size as nat),
    {
        proof {
            T::lemma_sized();
        }
        let count: usize = (region.len() - header_size) / core::mem::size_of::<T>();
        MmapSlice { region, header: header_size, count, marker: PhantomData }
    }

    /// Lays a sequence of `T` over the bytes that follow the header if the region
    /// fits one, and hands the region back untouched if it does not.
    pub fn try_with_header(region: Region, header_size: usize) -> (result: Result<Self, Region>)
        ensures
            match result {
                Ok(view) => {
                    &&& fits_slice::<T>(region@.len(), region.base(), header_size)
                    &&& view.wf()
                    &&& view.bytes() == region@
                    &&& view.header() == header_size
                    &&& view@ == items_of::<T>(region@, header_size as nat)
                },
                Err(back) => !fits_slice::<T>(region@.len(), region.base(), header_size) && back
                    == region,
            },
    {
        proof {
            T::lemma_sized();
        }
        let len: usize = region.len();
        let size: usize = core::mem::size_of::<T>();
        if header_size <= len && header_size % size == 0 && (len - header_size) % size == 0
            && is_aligned::<T>(region.base_address(), header_size) {
            Ok(Self::with_header(region, header_size))
        } else {
            Err(region)
        }
    }

    /// Number of items.
    pub fn len(&self) -> (len: usize)
        requires
            self.wf(),
        ensures
            len == self@.len(),
    {
        self.count
    }

    /// Where item `index` starts in the region.
    fn offset(&self, index: usize) -> (at: usize)
        requires
            self.wf(),
            index < self@.len(),
        ensures
            at == self.header() + index * size_of::<T>(),
            at + size_of::<T>() <= self.bytes().len(),
    {
        let len: usize = self.region.len();
        let size: usize = core::mem::size_of::<T>();
        proof {
            T::lemma_sized();
            lemma_count_fills::<T>(self.region@.len(), self.header as nat);
            lemma_item_within(index as int, self.count as int, size as int);
        }
        self.header + index * size
    }

    /// Reads item `index`.
    pub fn get(&self, index: usize) -> (value: T)
        requires
            self.wf(),
            index < self@.len(),
        ensures
            value == self@[index as int],
    {
        let at: usize = self.offset(index);
        let bytes: Vec<u8> = self.region.read_range(at, core::mem::size_of::<T>());
        proof {
            T::lemma_sized();
            lemma_item_within(index as int, self.count as int, size_of::<T>() as int);
        }
        T::from_bytes(bytes.as_slice())
    }

    /// Replaces item `index`; every other item stays.
    pub fn set(&mut self, index: usize, value: T)
        requires
            old(self).wf(),
            index < old(self)@.len(),
        ensures
            final(self).wf(),
            final(self).header() == old(self).header(),
            final(self)@ == old(self)@.update(index as int, value),
    {
        let at: usize = self.offset(index);
        let bytes: Vec<u8> = value.to_bytes();
        proof {
            T::lemma_round_trip(value);
            lemma_item_written::<T>(self.region@, self.header as nat, index as int, value);
        }
        self.region.write_range(at, bytes.as_slice());
    }

    /// Replaces every item by the item of `source` at the same place.
    pub fn copy_from_slice(&mut self, source: &[T])
        requires
            old(self).wf(),
            source@.len() == old(self)@.len(),
        ensures
            final(self).wf(),
            final(self).header() == old(self).header(),
            final(self)@ == source@,
    {
        let count: usize = self.len();
        let mut i: usize = 0;
        while i < count
            invariant
                i <= count,
                self.wf(),
                self.header() == old(self).header(),
                self@.len() == count,
                source@.len() == count,
                forall|j: int| 0 <= j < i ==> self@[j] == source@[j],
            decreases count - i,
        {
            let value: T = source[i];
            self.set(i, value);
            i = i + 1;
        }
    }

    /// Copies every item out.
    pub fn to_vec(&self) -> (values: Vec<T>)
        requires
            self.wf(),
        ensures
            values@ == self@,
    {
        let count: usize = self.len();
        let mut values: Vec<T> = Vec::new();
        let mut i: usize = 0;
        while i < count
            invariant
                i <= count,
                self.wf(),
                self@.len() == count,
                values@ == self@.subrange(0, i as int),
            decreases count - i,
        {
            let value: T = self.get(i);
            values.push(value);
            i = i + 1;
        }
        values
    }

    /// Asks the system to keep the pages of the view in memory. The items stay.
    pub fn lock(&mut self) -> (result: Result<(), MmapError>)
        ensures
            final(self).wf() == old(self).wf(),
            final(self).header() == old(self).header(),
            final(self).bytes() == old(self).bytes(),
            result matches Err(error) ==> error is Io,
    {
        self.region.lock()
    }

    /// The region underneath, for operations that only look at it.
    pub fn region(&self) -> (region: &Region)
        ensures
            region@ == self.bytes(),
    {
        &self.region
    }

    /// A handle to flush the view explicitly at a later time.
    pub fn flusher(&self) -> (flusher: Flusher<'_>)
        ensures
            flusher.bytes() == self.bytes(),
    {
        Flusher { region: &self.region }
    }
}

/// Whether a region of `len` bytes at `base` can be read as packed bits after a header
/// of `header` bytes: it fits a sequence of machine words, and its bits are no more
/// than can be addressed.
pub open spec fn fits_bits(len: nat, base: usize, header: usize) -> bool {
    fits_slice::<usize>(len, base, header) && (len - header) * 8 <= max_bits()
}

/// The bits that `bytes` hold after a header: bit `index` is bit `index % 8` of byte
/// `index / 8`, counted from the least significant bit.
pub open spec fn bits_of(bytes: Seq<u8>, header: nat) -> Seq<bool> {
    Seq::new(
        ((bytes.len() - header) * 8) as nat,
        |index: int| byte_bit(bytes[header + index / 8], (index % 8) as u8),
    )
}

/// Setting one bit of a byte leaves its other bits as they were.
proof fn lemma_with_bit(byte: u8, k: u8, value: bool, j: u8)
    requires
        k < 8,
        j < 8,
    ensures
        byte_bit(with_bit(byte, k, value), j) == (if j == k {
            value
        } else {
            byte_bit(byte, j)
        }),
{
    if value {
        assert((((byte | (1u8 << k)) >> j) & 1u8 == 1u8) <==> (j == k || (byte >> j) & 1u8
            == 1u8)) by (bit_vector)
            requires
                k < 8,
                j < 8,
        ;
    } else {
        assert((((byte & !(1u8 << k)) >> j) & 1u8 == 1u8) <==> (j != k && (byte >> j) & 1u8
            == 1u8)) by (bit_vector)
            requires
                k < 8,
                j < 8,
        ;
    }
}

/// Setting one bit of the bytes leaves every other bit as it was.
proof fn lemma_bit_written(bytes: Seq<u8>, header: nat, index: int, value: bool)
    requires
        header <= bytes.len(),
        0 <= index < (bytes.len() - header) * 8,
    ensures
        bits_of(
            bytes.update(
                header + index / 8,
                with_bit(bytes[header + index / 8], (index % 8) as u8, value),
            ),
            header,
        ) == bits_of(bytes, header).update(index, value),
{
    let place = header + index / 8;
    let after = bytes.update(place, with_bit(bytes[place], (index % 8) as u8, value));
    assert forall|j: int| 0 <= j < (bytes.len() - header) * 8 implies byte_bit(
        #[trigger] after[header + j / 8],
        (j % 8) as u8,
    ) == (if j == index {
        value
    } else {
        byte_bit(bytes[header + j / 8], (j % 8) as u8)
    }) by {
        if j / 8 == index / 8 {
            lemma_with_bit(bytes[place], (index % 8) as u8, value, (j % 8) as u8);
        }
    }
}

/// A packed run of bits on a byte region, after an optional header that this layer
/// never reads. The region is measured in machine words, as a sequence of `usize`
/// is, and the bits are packed byte by byte from the least significant bit on.
pub struct MmapBitSlice {
    region: Region,
    header: usize,
}

impl MmapBitSlice {
    /// The view's invariant: its region fits packed bits after the header.
    pub closed spec fn wf(&self) -> bool {
        fits_bits(self.region@.len(), self.region.base(), self.header)
    }

    /// The bytes underneath, header included.
    pub closed spec fn bytes(&self) -> Seq<u8> {
        self.region@
    }

    /// Length of the header in bytes.
    pub closed spec fn header(&self) -> nat {
        self.header as nat
    }

    /// The bits that the bytes after the header hold.
    pub open spec fn view(&self) -> Seq<bool> {
        bits_of(self.bytes(), self.header())
    }

    /// Lays packed bits over the bytes of a region that follow a header of
    /// `header_size` bytes.
    pub fn from(region: Region, header_size: usize) -> (view: Self)
        requires
            fits_bits(region@.len(), region.base(), header_size),
        ensures
            view.wf(),
            view.bytes() == region@,
            view.header() == header_size,
            view@ == bits_of(region@, header_size as nat),
    {
        MmapBitSlice { region, header: header_size }
    }

    /// Lays packed bits over the bytes that follow the header if the region fits
    /// them, and hands the region back untouched if it does not.
    pub fn try_from(region: Region, header_size: usize) -> (result: Result<Self, Region>)
        ensures
            match result {
                Ok(view) => {
                    &&& fits_bits(region@.len(), region.base(), header_size)
                    &&& view.wf()
                    &&& view.bytes() == region@
                    &&& view.header() == header_size
                    &&& view@ == bits_of(region@, header_size as nat)
                },
                Err(back) => !fits_bits(region@.len(), region.base(), header_size) && back
                    == region,
            },
    {
        proof {
            usize::lemma_sized();
        }
        let len: usize = region.len();
        let size: usize = core::mem::size_of::<usize>();
        if header_size <= len && header_size % size == 0 && (len - header_size) % size == 0
            && is_aligned::<usize>(region.base_address(), header_size) && len - header_size
            <= usize::MAX / 64 {
            Ok(Self::from(region, header_size))
        } else {
            Err(region)
        }
    }

    /// Number of bits.
    pub fn len(&self) -> (len: usize)
        requires
            self.wf(),
        ensures
            len == self@.len(),
    {
        (self.region.len() - self.header) * 8
    }

    /// Reads bit `index`.
    pub fn get(&self, index: usize) -> (bit: bool)
        requires
            self.wf(),
            index < self@.len(),
        ensures
            bit == self@[index as int],
    {
        self.region.bit(self.header, index)
    }

    /// Sets bit `index`; every other bit stays.
    pub fn set(&mut self, index: usize, value: bool)
        requires
            old(self).wf(),
            index < old(self)@.len(),
        ensures
            final(self).wf(),
            final(self).header() == old(self).header(),
            final(self)@ == old(self)@.update(index as int, value),
    {
        proof {
            lemma_bit_written(self.region@, self.header as nat, index as int, value);
        }
        self.region.set_bit(self.header, index, value);
    }

    /// Asks the system to keep the pages of the view in memory. The bits stay.
    pub fn lock(&mut self) -> (result: Result<(), MmapError>)
        ensures
            final(self).wf() == old(self).wf(),
            final(self).header() == old(self).header(),
            final(self).bytes() == old(self).bytes(),
            result matches Err(error) ==> error is Io,
    {
        self.region.lock()
    }

    /// The region underneath, for operations that only look at it.
    pub fn region(&self) -> (region: &Region)
        ensures
            region@ == self.bytes(),
    {
        &self.region
    }

    /// A handle to flush the view explicitly at a later time.
    pub fn flusher(&self) -> (flusher: Flusher<'_>)
        ensures
            flusher.bytes() == self.bytes(),
    {
        Flusher { region: &self.region }
    }
}

} // verus!
