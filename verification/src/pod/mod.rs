//! Alignment-1 integer, boolean and optional-value wrappers, and the byte
//! layout of every fixed-size value: little-endian integers, no padding.

use crate::utils::DataLen;
use vstd::prelude::*;

pub mod boolean;
pub mod bytes;
pub mod endian;
pub mod integers;
pub mod option;

use crate::pod::boolean::lemma_bool_len;
use crate::pod::bytes::lemma_byte_lens;
use crate::pod::integers::lemma_integer_lens;
use crate::pod::option::lemma_option_lens;

pub use crate::pod::boolean::PodBool;
pub use crate::pod::endian::le_bytes;
pub use crate::pod::endian::le_value;
pub use crate::pod::endian::lemma_le_bytes_len;
pub use crate::pod::endian::lemma_le_bytes_of_value;
pub use crate::pod::endian::lemma_le_value_bound;
pub use crate::pod::endian::lemma_le_value_of_bytes;
pub use crate::pod::endian::lemma_pow256_widths;
pub use crate::pod::endian::pow256;
pub use crate::pod::endian::read_le;
pub use crate::pod::integers::PodU128;
pub use crate::pod::integers::PodU16;
pub use crate::pod::integers::PodU32;
pub use crate::pod::integers::PodU64;
pub use crate::pod::option::lemma_from_option;
pub use crate::pod::option::PodOption;

verus! {

/// `n` zero bytes.
pub open spec fn zeros(n: nat) -> Seq<u8> {
    Seq::new(n, |i: int| 0u8)
}

/// A value with a fixed byte layout of `LEN` bytes.
pub trait Pod: DataLen + Sized {
    /// Whether the value is one that decoding some buffer gives.
    spec fn wf(&self) -> bool;

    /// The bytes that stand for the value.
    spec fn layout(&self) -> Seq<u8>;

    /// The value that a buffer of `LEN` bytes stands for.
    spec fn parse(bytes: Seq<u8>) -> Self;

    /// Every layout has exactly `LEN` bytes.
    proof fn lemma_layout_len(v: Self)
        ensures
            v.layout().len() == Self::LEN,
    ;

    /// Decoding the layout of a well-formed value gives the value back.
    proof fn lemma_parse_layout(v: Self)
        requires
            v.wf(),
        ensures
            Self::parse(v.layout()) == v,
    ;

    /// Decoding gives a well-formed value.
    proof fn lemma_parse_wf(bytes: Seq<u8>)
        requires
            bytes.len() == Self::LEN,
        ensures
            Self::parse(bytes).wf(),
    ;

    /// Decodes a buffer of exactly `LEN` bytes.
    fn decode(bytes: &[u8]) -> (r: Self)
        requires
            bytes@.len() == Self::LEN,
        ensures
            r == Self::parse(bytes@),
    ;

    /// Appends the layout of the value to `out`.
    fn encode(&self, out: &mut Vec<u8>)
        ensures
            final(out)@ == old(out)@ + self.layout(),
    ;
}

/// The sizes of the layouts of this module.
pub proof fn lemma_pod_lens()
    ensures
        u8::LEN == 1,
        PodU16::LEN == 2,
        PodU32::LEN == 4,
        PodU64::LEN == 8,
        PodU128::LEN == 16,
        PodBool::LEN == 1,
        <[u8; 32]>::LEN == 32,
        PodOption::<u8>::LEN == 2,
        PodOption::<PodU64>::LEN == 9,
        PodOption::<[u8; 32]>::LEN == 33,
{
    lemma_byte_lens();
    lemma_integer_lens();
    lemma_bool_len();
    lemma_option_lens();
}

} // verus!
