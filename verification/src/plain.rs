//! Plain data: fixed-size values that a run of bytes stands for, whatever the bytes
//! are. A value is laid out in little-endian order, which on a little-endian machine
//! is the order of the value in memory.

use vstd::bytes::{
    lemma_auto_spec_u16_to_from_le_bytes, lemma_auto_spec_u32_to_from_le_bytes,
    lemma_auto_spec_u64_to_from_le_bytes, spec_u16_from_le_bytes, spec_u16_to_le_bytes,
    spec_u32_from_le_bytes, spec_u32_to_le_bytes, spec_u64_from_le_bytes, spec_u64_to_le_bytes,
    u16_from_le_bytes, u16_to_le_bytes, u32_from_le_bytes, u32_to_le_bytes, u64_from_le_bytes,
    u64_to_le_bytes,
};
use vstd::layout::{layout_of_primitives, size_of};
use vstd::prelude::*;

verus! {

/// A type whose values can be overlaid on bytes: every run of `size_of::<Self>()`
/// bytes stands for a value, and a value written is the value read back.
pub trait PlainData: Copy + Sized {
    /// The value that `bytes` stand for.
    spec fn decode(bytes: Seq<u8>) -> Self;

    /// The bytes that stand for `self`.
    spec fn encode(self) -> Seq<u8>;

    /// A value takes up at least one byte.
    proof fn lemma_sized()
        ensures
            size_of::<Self>() > 0,
    ;

    /// A value fills exactly its size, and reading back what was written gives the
    /// value again.
    proof fn lemma_round_trip(value: Self)
        ensures
            value.encode().len() == size_of::<Self>(),
            Self::decode(value.encode()) == value,
    ;

    /// Reads the value that `bytes` stand for.
    fn from_bytes(bytes: &[u8]) -> (value: Self)
        requires
            bytes@.len() == size_of::<Self>(),
        ensures
            value == Self::decode(bytes@),
    ;

    /// Writes the value out.
    fn to_bytes(self) -> (bytes: Vec<u8>)
        ensures
            bytes@ == self.encode(),
    ;
}

impl PlainData for u8 {
    open spec fn decode(bytes: Seq<u8>) -> u8 {
        bytes[0]
    }

    open spec fn encode(self) -> Seq<u8> {
        seq![self]
    }

    proof fn lemma_sized() {
        broadcast use layout_of_primitives;

    }

    proof fn lemma_round_trip(value: u8) {
        broadcast use layout_of_primitives;

    }

    fn from_bytes(bytes: &[u8]) -> (value: u8) {
        proof {
            broadcast use layout_of_primitives;

        }
        bytes[0]
    }

    fn to_bytes(self) -> (bytes: Vec<u8>) {
        let mut bytes: Vec<u8> = Vec::new();
        bytes.push(self);
        bytes
    }
}

impl PlainData for u16 {
    open spec fn decode(bytes: Seq<u8>) -> u16 {
        spec_u16_from_le_bytes(bytes)
    }

    open spec fn encode(self) -> Seq<u8> {
        spec_u16_to_le_bytes(self)
    }

    proof fn lemma_sized() {
        broadcast use layout_of_primitives;

    }

    proof fn lemma_round_trip(value: u16) {
        broadcast use layout_of_primitives;

        lemma_auto_spec_u16_to_from_le_bytes();
        assert(spec_u16_to_le_bytes(value).len() == 2);
    }

    fn from_bytes(bytes: &[u8]) -> (value: u16) {
        proof {
            broadcast use layout_of_primitives;

        }
        u16_from_le_bytes(bytes)
    }

    fn to_bytes(self) -> (bytes: Vec<u8>) {
        u16_to_le_bytes(self)
    }
}

impl PlainData for u32 {
    open spec fn decode(bytes: Seq<u8>) -> u32 {
        spec_u32_from_le_bytes(bytes)
    }

    open spec fn encode(self) -> Seq<u8> {
        spec_u32_to_le_bytes(self)
    }

    proof fn lemma_sized() {
        broadcast use layout_of_primitives;

    }

    proof fn lemma_round_trip(value: u32) {
        broadcast use layout_of_primitives;

        lemma_auto_spec_u32_to_from_le_bytes();
        assert(spec_u32_to_le_bytes(value).len() == 4);
    }

    fn from_bytes(bytes: &[u8]) -> (value: u32) {
        proof {
            broadcast use layout_of_primitives;

        }
        u32_from_le_bytes(bytes)
    }

    fn to_bytes(self) -> (bytes: Vec<u8>) {
        u32_to_le_bytes(self)
    }
}

impl PlainData for u64 {
    open spec fn decode(bytes: Seq<u8>) -> u64 {
        spec_u64_from_le_bytes(bytes)
    }

    open spec fn encode(self) -> Seq<u8> {
        spec_u64_to_le_bytes(self)
    }

    proof fn lemma_sized() {
        broadcast use layout_of_primitives;

    }

    proof fn lemma_round_trip(value: u64) {
        broadcast use layout_of_primitives;

        lemma_auto_spec_u64_to_from_le_bytes();
    }

    fn from_bytes(bytes: &[u8]) -> (value: u64) {
        proof {
            broadcast use layout_of_primitives;

        }
        u64_from_le_bytes(bytes)
    }

    fn to_bytes(self) -> (bytes: Vec<u8>) {
        u64_to_le_bytes(self)
    }
}

/// The machine word is laid out as the fixed-width integer of its size.
impl PlainData for usize {
    open spec fn decode(bytes: Seq<u8>) -> usize {
        if size_of::<usize>() == 8 {
            spec_u64_from_le_bytes(bytes) as usize
        } else {
            spec_u32_from_le_bytes(bytes) as usize
        }
    }

    open spec fn encode(self) -> Seq<u8> {
        if size_of::<usize>() == 8 {
            spec_u64_to_le_bytes(self as u64)
        } else {
            spec_u32_to_le_bytes(self as u32)
        }
    }

    proof fn lemma_sized() {
        broadcast use layout_of_primitives;

    }

    proof fn lemma_round_trip(value: usize) {
        broadcast use layout_of_primitives;

        lemma_auto_spec_u64_to_from_le_bytes();
        lemma_auto_spec_u32_to_from_le_bytes();
        if size_of::<usize>() != 8 {
            assert(value as u32 as usize == value);
        }
    }

    fn from_bytes(bytes: &[u8]) -> (value: usize) {
        proof {
            broadcast use layout_of_primitives;

        }
        if core::mem::size_of::<usize>() == 8 {
            u64_from_le_bytes(bytes) as usize
        } else {
            u32_from_le_bytes(bytes) as usize
        }
    }

    fn to_bytes(self) -> (bytes: Vec<u8>) {
        proof {
            broadcast use layout_of_primitives;

        }
        if core::mem::size_of::<usize>() == 8 {
            u64_to_le_bytes(self as u64)
        } else {
            u32_to_le_bytes(self as u32)
        }
    }
}

} // verus!
