//! Unsigned integers of 16, 32, 64 and 128 bits, each stored as its
//! little-endian bytes.

use crate::pod::endian::le_bytes;
use crate::pod::endian::le_value;
use crate::pod::endian::lemma_le_bytes_index;
use crate::pod::endian::lemma_le_value_bound;
use crate::pod::endian::lemma_le_value_of_bytes;
use crate::pod::endian::lemma_pow256_widths;
use crate::pod::endian::pow256;
use crate::pod::endian::read_le;
use crate::pod::Pod;
use crate::utils::DataLen;
use vstd::prelude::*;

verus! {

/// The two bytes of `v`, least significant first.
pub open spec fn le_array2(v: u16) -> [u8; 2] {
    [
        (v % 256) as u8,
        (v / 0x100 % 256) as u8,
    ]
}

/// The array is the little-endian encoding of `v`, and reads back as `v`.
pub proof fn lemma_le_array2(v: u16)
    ensures
        le_array2(v)@ == le_bytes(v as nat, 2),
        le_value(le_array2(v)@) == v,
{
    reveal_with_fuel(pow256, 3);
    lemma_le_bytes_index(v as nat, 2, 0);
    lemma_le_bytes_index(v as nat, 2, 1);
    assert(le_array2(v)@ =~= le_bytes(v as nat, 2));
    lemma_le_value_of_bytes(v as nat, 2);
}

/// An unsigned 16-bit integer stored as two little-endian bytes.
#[derive(Clone, Copy, Debug, PartialEq, Eq)]
pub struct PodU16 {
    pub data: [u8; 2],
}

impl View for PodU16 {
    type V = u16;

    open spec fn view(&self) -> u16 {
        le_value(self.data@) as u16
    }
}

impl DataLen for PodU16 {
    const LEN: usize = 2;
}

impl Default for PodU16 {
    fn default() -> (r: Self)
        ensures
            r.data@ == Seq::new(2, |i: int| 0u8),
            r@ == 0,
    {
        let r = PodU16 { data: [0u8; 2] };
        proof {
            assert(r.data@ =~= Seq::new(2, |i: int| 0u8));
            reveal_with_fuel(le_value, 3);
        }
        r
    }
}

impl From<u16> for PodU16 {
    fn from(value: u16) -> (ret: Self)
        ensures
            ret.data@ == le_bytes(value as nat, 2),
            ret@ == value,
    {
        proof {
            lemma_le_array2(value);
        }
        PodU16 {
            data: [
                (value % 256) as u8,
                (value / 0x100 % 256) as u8,
            ],
        }
    }
}

impl vstd::std_specs::convert::FromSpecImpl<u16> for PodU16 {
    open spec fn obeys_from_spec() -> bool {
        true
    }

    open spec fn from_spec(v: u16) -> Self {
        PodU16 { data: le_array2(v) }
    }
}

impl From<PodU16> for u16 {
    fn from(pod: PodU16) -> (ret: u16) {
        pod.get()
    }
}

impl vstd::std_specs::convert::FromSpecImpl<PodU16> for u16 {
    open spec fn obeys_from_spec() -> bool {
        true
    }

    open spec fn from_spec(pod: PodU16) -> u16 {
        pod@
    }
}

impl PodU16 {
    /// The integer that the bytes encode.
    pub fn get(&self) -> (r: u16)
        ensures
            r == self@,
    {
        proof {
            lemma_le_value_bound(self.data@);
            lemma_pow256_widths();
        }
        read_le(self.data.as_slice()) as u16
    }

    /// Stores `value` as little-endian bytes.
    pub fn set(&mut self, value: u16)
        ensures
            final(self).data@ == le_bytes(value as nat, 2),
            final(self)@ == value,
    {
        *self = PodU16::from(value);
    }
}

impl Pod for PodU16 {
    open spec fn wf(&self) -> bool {
        true
    }

    open spec fn layout(&self) -> Seq<u8> {
        self.data@
    }

    open spec fn parse(bytes: Seq<u8>) -> Self {
        PodU16 { data: [bytes[0], bytes[1]] }
    }

    proof fn lemma_layout_len(v: Self) {
    }

    proof fn lemma_parse_layout(v: Self) {
        assert(Self::parse(v.layout()).data =~= v.data);
    }

    proof fn lemma_parse_wf(bytes: Seq<u8>) {
    }

    fn decode(bytes: &[u8]) -> (r: Self) {
        PodU16 {
            data: [
                bytes[0],
                bytes[1],
            ],
        }
    }

    fn encode(&self, out: &mut Vec<u8>) {
        let mut i: usize = 0;
        while i < 2
            invariant
                i <= 2,
                out@ == old(out)@ + self.data@.subrange(0, i as int),
            decreases 2 - i,
        {
            out.push(self.data[i]);
            i += 1;
        }
        assert(self.data@.subrange(0, 2) =~= self.data@);
    }
}

/// The four bytes of `v`, least significant first.
pub open spec fn le_array4(v: u32) -> [u8; 4] {
    [
        (v % 256) as u8,
        (v / 0x100 % 256) as u8,
        (v / 0x1_0000 % 256) as u8,
        (v / 0x100_0000 % 256) as u8,
    ]
}

/// The array is the little-endian encoding of `v`, and reads back as `v`.
pub proof fn lemma_le_array4(v: u32)
    ensures
        le_array4(v)@ == le_bytes(v as nat, 4),
        le_value(le_array4(v)@) == v,
{
    reveal_with_fuel(pow256, 5);
    lemma_le_bytes_index(v as nat, 4, 0);
    lemma_le_bytes_index(v as nat, 4, 1);
    lemma_le_bytes_index(v as nat, 4, 2);
    lemma_le_bytes_index(v as nat, 4, 3);
    assert(le_array4(v)@ =~= le_bytes(v as nat, 4));
    lemma_le_value_of_bytes(v as nat, 4);
}

/// An unsigned 32-bit integer stored as four little-endian bytes.
#[derive(Clone, Copy, Debug, PartialEq, Eq)]
pub struct PodU32 {
    pub data: [u8; 4],
}

impl View for PodU32 {
    type V = u32;

    open spec fn view(&self) -> u32 {
        le_value(self.data@) as u32
    }
}

impl DataLen for PodU32 {
    const LEN: usize = 4;
}

impl Default for PodU32 {
    fn default() -> (r: Self)
        ensures
            r.data@ == Seq::new(4, |i: int| 0u8),
            r@ == 0,
    {
        let r = PodU32 { data: [0u8; 4] };
        proof {
            assert(r.data@ =~= Seq::new(4, |i: int| 0u8));
            reveal_with_fuel(le_value, 5);
        }
        r
    }
}

impl From<u32> for PodU32 {
    fn from(value: u32) -> (ret: Self)
        ensures
            ret.data@ == le_bytes(value as nat, 4),
            ret@ == value,
    {
        proof {
            lemma_le_array4(value);
        }
        PodU32 {
            data: [
                (value % 256) as u8,
                (value / 0x100 % 256) as u8,
                (value / 0x1_0000 % 256) as u8,
                (value / 0x100_0000 % 256) as u8,
            ],
        }
    }
}

impl vstd::std_specs::convert::FromSpecImpl<u32> for PodU32 {
    open spec fn obeys_from_spec() -> bool {
        true
    }

    open spec fn from_spec(v: u32) -> Self {
        PodU32 { data: le_array4(v) }
    }
}

impl From<PodU32> for u32 {
    fn from(pod: PodU32) -> (ret: u32) {
        pod.get()
    }
}

impl vstd::std_specs::convert::FromSpecImpl<PodU32> for u32 {
    open spec fn obeys_from_spec() -> bool {
        true
    }

    open spec fn from_spec(pod: PodU32) -> u32 {
        pod@
    }
}

impl PodU32 {
    /// The integer that the bytes encode.
    pub fn get(&self) -> (r: u32)
        ensures
            r == self@,
    {
        proof {
            lemma_le_value_bound(self.data@);
            lemma_pow256_widths();
        }
        read_le(self.data.as_slice()) as u32
    }

    /// Stores `value` as little-endian bytes.
    pub fn set(&mut self, value: u32)
        ensures
            final(self).data@ == le_bytes(value as nat, 4),
            final(self)@ == value,
    {
        *self = PodU32::from(value);
    }
}

impl Pod for PodU32 {
    open spec fn wf(&self) -> bool {
        true
    }

    open spec fn layout(&self) -> Seq<u8> {
        self.data@
    }

    open spec fn parse(bytes: Seq<u8>) -> Self {
        PodU32 { data: [bytes[0], bytes[1], bytes[2], bytes[3]] }
    }

    proof fn lemma_layout_len(v: Self) {
    }

    proof fn lemma_parse_layout(v: Self) {
        assert(Self::parse(v.layout()).data =~= v.data);
    }

    proof fn lemma_parse_wf(bytes: Seq<u8>) {
    }

    fn decode(bytes: &[u8]) -> (r: Self) {
        PodU32 {
            data: [
                bytes[0],
                bytes[1],
                bytes[2],
                bytes[3],
            ],
        }
    }

    fn encode(&self, out: &mut Vec<u8>) {
        let mut i: usize = 0;
        while i < 4
            invariant
                i <= 4,
                out@ == old(out)@ + self.data@.subrange(0, i as int),
            decreases 4 - i,
        {
            out.push(self.data[i]);
            i += 1;
        }
        assert(self.data@.subrange(0, 4) =~= self.data@);
    }
}

/// The eight bytes of `v`, least significant first.
pub open spec fn le_array8(v: u64) -> [u8; 8] {
    [
        (v % 256) as u8,
        (v / 0x100 % 256) as u8,
        (v / 0x1_0000 % 256) as u8,
        (v / 0x100_0000 % 256) as u8,
        (v / 0x1_0000_0000 % 256) as u8,
        (v / 0x100_0000_0000 % 256) as u8,
        (v / 0x1_0000_0000_0000 % 256) as u8,
        (v / 0x100_0000_0000_0000 % 256) as u8,
    ]
}

/// The array is the little-endian encoding of `v`, and reads back as `v`.
pub proof fn lemma_le_array8(v: u64)
    ensures
        le_array8(v)@ == le_bytes(v as nat, 8),
        le_value(le_array8(v)@) == v,
{
    reveal_with_fuel(pow256, 9);
    lemma_le_bytes_index(v as nat, 8, 0);
    lemma_le_bytes_index(v as nat, 8, 1);
    lemma_le_bytes_index(v as nat, 8, 2);
    lemma_le_bytes_index(v as nat, 8, 3);
    lemma_le_bytes_index(v as nat, 8, 4);
    lemma_le_bytes_index(v as nat, 8, 5);
    lemma_le_bytes_index(v as nat, 8, 6);
    lemma_le_bytes_index(v as nat, 8, 7);
    assert(le_array8(v)@ =~= le_bytes(v as nat, 8));
    lemma_le_value_of_bytes(v as nat, 8);
}

/// An unsigned 64-bit integer stored as eight little-endian bytes.
#[derive(Clone, Copy, Debug, PartialEq, Eq)]
pub struct PodU64 {
    pub data: [u8; 8],
}

impl View for PodU64 {
    type V = u64;

    open spec fn view(&self) -> u64 {
        le_value(self.data@) as u64
    }
}

impl DataLen for PodU64 {
    const LEN: usize = 8;
}

impl Default for PodU64 {
    fn default() -> (r: Self)
        ensures
            r.data@ == Seq::new(8, |i: int| 0u8),
            r@ == 0,
    {
        let r = PodU64 { data: [0u8; 8] };
        proof {
            assert(r.data@ =~= Seq::new(8, |i: int| 0u8));
            reveal_with_fuel(le_value, 9);
        }
        r
    }
}

impl From<u64> for PodU64 {
    fn from(value: u64) -> (ret: Self)
        ensures
            ret.data@ == le_bytes(value as nat, 8),
            ret@ == value,
    {
        proof {
            lemma_le_array8(value);
        }
        PodU64 {
            data: [
                (value % 256) as u8,
                (value / 0x100 % 256) as u8,
                (value / 0x1_0000 % 256) as u8,
                (value / 0x100_0000 % 256) as u8,
                (value / 0x1_0000_0000 % 256) as u8,
                (value / 0x100_0000_0000 % 256) as u8,
                (value / 0x1_0000_0000_0000 % 256) as u8,
                (value / 0x100_0000_0000_0000 % 256) as u8,
            ],
        }
    }
}

impl vstd::std_specs::convert::FromSpecImpl<u64> for PodU64 {
    open spec fn obeys_from_spec() -> bool {
        true
    }

    open spec fn from_spec(v: u64) -> Self {
        PodU64 { data: le_array8(v) }
    }
}

impl From<PodU64> for u64 {
    fn from(pod: PodU64) -> (ret: u64) {
        pod.get()
    }
}

impl vstd::std_specs::convert::FromSpecImpl<PodU64> for u64 {
    open spec fn obeys_from_spec() -> bool {
        true
    }

    open spec fn from_spec(pod: PodU64) -> u64 {
        pod@
    }
}

impl PodU64 {
    /// The integer that the bytes encode.
    pub fn get(&self) -> (r: u64)
        ensures
            r == self@,
    {
        proof {
            lemma_le_value_bound(self.data@);
            lemma_pow256_widths();
        }
        read_le(self.data.as_slice()) as u64
    }

    /// Stores `value` as little-endian bytes.
    pub fn set(&mut self, value: u64)
        ensures
            final(self).data@ == le_bytes(value as nat, 8),
            final(self)@ == value,
    {
        *self = PodU64::from(value);
    }
}

impl Pod for PodU64 {
    open spec fn wf(&self) -> bool {
        true
    }

    open spec fn layout(&self) -> Seq<u8> {
        self.data@
    }

    open spec fn parse(bytes: Seq<u8>) -> Self {
        PodU64 { data: [bytes[0], bytes[1], bytes[2], bytes[3], bytes[4], bytes[5], bytes[6], bytes[7]] }
    }

    proof fn lemma_layout_len(v: Self) {
    }

    proof fn lemma_parse_layout(v: Self) {
        assert(Self::parse(v.layout()).data =~= v.data);
    }

    proof fn lemma_parse_wf(bytes: Seq<u8>) {
    }

    fn decode(bytes: &[u8]) -> (r: Self) {
        PodU64 {
            data: [
                bytes[0],
                bytes[1],
                bytes[2],
                bytes[3],
                bytes[4],
                bytes[5],
                bytes[6],
                bytes[7],
            ],
        }
    }

    fn encode(&self, out: &mut Vec<u8>) {
        let mut i: usize = 0;
        while i < 8
            invariant
                i <= 8,
                out@ == old(out)@ + self.data@.subrange(0, i as int),
            decreases 8 - i,
        {
            out.push(self.data[i]);
            i += 1;
        }
        assert(self.data@.subrange(0, 8) =~= self.data@);
    }
}

/// The sixteen bytes of `v`, least significant first.
pub open spec fn le_array16(v: u128) -> [u8; 16] {
    [
        (v % 256) as u8,
        (v / 0x100 % 256) as u8,
        (v / 0x1_0000 % 256) as u8,
        (v / 0x100_0000 % 256) as u8,
        (v / 0x1_0000_0000 % 256) as u8,
        (v / 0x100_0000_0000 % 256) as u8,
        (v / 0x1_0000_0000_0000 % 256) as u8,
        (v / 0x100_0000_0000_0000 % 256) as u8,
        (v / 0x1_0000_0000_0000_0000 % 256) as u8,
        (v / 0x100_0000_0000_0000_0000 % 256) as u8,
        (v / 0x1_0000_0000_0000_0000_0000 % 256) as u8,
        (v / 0x100_0000_0000_0000_0000_0000 % 256) as u8,
        (v / 0x1_0000_0000_0000_0000_0000_0000 % 256) as u8,
        (v / 0x100_0000_0000_0000_0000_0000_0000 % 256) as u8,
        (v / 0x1_0000_0000_0000_0000_0000_0000_0000 % 256) as u8,
        (v / 0x100_0000_0000_0000_0000_0000_0000_0000 % 256) as u8,
    ]
}

/// The array is the little-endian encoding of `v`, and reads back as `v`.
pub proof fn lemma_le_array16(v: u128)
    ensures
        le_array16(v)@ == le_bytes(v as nat, 16),
        le_value(le_array16(v)@) == v,
{
    reveal_with_fuel(pow256, 17);
    lemma_le_bytes_index(v as nat, 16, 0);
    lemma_le_bytes_index(v as nat, 16, 1);
    lemma_le_bytes_index(v as nat, 16, 2);
    lemma_le_bytes_index(v as nat, 16, 3);
    lemma_le_bytes_index(v as nat, 16, 4);
    lemma_le_bytes_index(v as nat, 16, 5);
    lemma_le_bytes_index(v as nat, 16, 6);
    lemma_le_bytes_index(v as nat, 16, 7);
    lemma_le_bytes_index(v as nat, 16, 8);
    lemma_le_bytes_index(v as nat, 16, 9);
    lemma_le_bytes_index(v as nat, 16, 10);
    lemma_le_bytes_index(v as nat, 16, 11);
    lemma_le_bytes_index(v as nat, 16, 12);
    lemma_le_bytes_index(v as nat, 16, 13);
    lemma_le_bytes_index(v as nat, 16, 14);
    lemma_le_bytes_index(v as nat, 16, 15);
    assert(le_array16(v)@ =~= le_bytes(v as nat, 16));
    lemma_le_value_of_bytes(v as nat, 16);
}

/// An unsigned 128-bit integer stored as sixteen little-endian bytes.
#[derive(Clone, Copy, Debug, PartialEq, Eq)]
pub struct PodU128 {
    pub data: [u8; 16],
}

impl View for PodU128 {
    type V = u128;

    open spec fn view(&self) -> u128 {
        le_value(self.data@) as u128
    }
}

impl DataLen for PodU128 {
    const LEN: usize = 16;
}

impl Default for PodU128 {
    fn default() -> (r: Self)
        ensures
            r.data@ == Seq::new(16, |i: int| 0u8),
            r@ == 0,
    {
        let r = PodU128 { data: [0u8; 16] };
        proof {
            assert(r.data@ =~= Seq::new(16, |i: int| 0u8));
            reveal_with_fuel(le_value, 17);
        }
        r
    }
}

impl From<u128> for PodU128 {
    fn from(value: u128) -> (ret: Self)
        ensures
            ret.data@ == le_bytes(value as nat, 16),
            ret@ == value,
    {
        proof {
            lemma_le_array16(value);
        }
        PodU128 {
            data: [
                (value % 256) as u8,
                (value / 0x100 % 256) as u8,
                (value / 0x1_0000 % 256) as u8,
                (value / 0x100_0000 % 256) as u8,
                (value / 0x1_0000_0000 % 256) as u8,
                (value / 0x100_0000_0000 % 256) as u8,
                (value / 0x1_0000_0000_0000 % 256) as u8,
                (value / 0x100_0000_0000_0000 % 256) as u8,
                (value / 0x1_0000_0000_0000_0000 % 256) as u8,
                (value / 0x100_0000_0000_0000_0000 % 256) as u8,
                (value / 0x1_0000_0000_0000_0000_0000 % 256) as u8,
                (value / 0x100_0000_0000_0000_0000_0000 % 256) as u8,
                (value / 0x1_0000_0000_0000_0000_0000_0000 % 256) as u8,
                (value / 0x100_0000_0000_0000_0000_0000_0000 % 256) as u8,
                (value / 0x1_0000_0000_0000_0000_0000_0000_0000 % 256) as u8,
                (value / 0x100_0000_0000_0000_0000_0000_0000_0000 % 256) as u8,
            ],
        }
    }
}

impl vstd::std_specs::convert::FromSpecImpl<u128> for PodU128 {
    open spec fn obeys_from_spec() -> bool {
        true
    }

    open spec fn from_spec(v: u128) -> Self {
        PodU128 { data: le_array16(v) }
    }
}

impl From<PodU128> for u128 {
    fn from(pod: PodU128) -> (ret: u128) {
        pod.get()
    }
}

impl vstd::std_specs::convert::FromSpecImpl<PodU128> for u128 {
    open spec fn obeys_from_spec() -> bool {
        true
    }

    open spec fn from_spec(pod: PodU128) -> u128 {
        pod@
    }
}

impl PodU128 {
    /// The integer that the bytes encode.
    pub fn get(&self) -> (r: u128)
        ensures
            r == self@,
    {
        proof {
            lemma_le_value_bound(self.data@);
            lemma_pow256_widths();
        }
        read_le(self.data.as_slice()) as u128
    }

    /// Stores `value` as little-endian bytes.
    pub fn set(&mut self, value: u128)
        ensures
            final(self).data@ == le_bytes(value as nat, 16),
            final(self)@ == value,
    {
        *self = PodU128::from(value);
    }
}

impl Pod for PodU128 {
    open spec fn wf(&self) -> bool {
        true
    }

    open spec fn layout(&self) -> Seq<u8> {
        self.data@
    }

    open spec fn parse(bytes: Seq<u8>) -> Self {
        PodU128 { data: [bytes[0], bytes[1], bytes[2], bytes[3], bytes[4], bytes[5], bytes[6], bytes[7], bytes[8], bytes[9], bytes[10], bytes[11], bytes[12], bytes[13], bytes[14], bytes[15]] }
    }

    proof fn lemma_layout_len(v: Self) {
    }

    proof fn lemma_parse_layout(v: Self) {
        assert(Self::parse(v.layout()).data =~= v.data);
    }

    proof fn lemma_parse_wf(bytes: Seq<u8>) {
    }

    fn decode(bytes: &[u8]) -> (r: Self) {
        PodU128 {
            data: [
                bytes[0],
                bytes[1],
                bytes[2],
                bytes[3],
                bytes[4],
                bytes[5],
                bytes[6],
                bytes[7],
                bytes[8],
                bytes[9],
                bytes[10],
                bytes[11],
                bytes[12],
                bytes[13],
                bytes[14],
                bytes[15],
            ],
        }
    }

    fn encode(&self, out: &mut Vec<u8>) {
        let mut i: usize = 0;
        while i < 16
            invariant
                i <= 16,
                out@ == old(out)@ + self.data@.subrange(0, i as int),
            decreases 16 - i,
        {
            out.push(self.data[i]);
            i += 1;
        }
        assert(self.data@.subrange(0, 16) =~= self.data@);
    }
}

/// The sizes of the four integer layouts.
pub proof fn lemma_integer_lens()
    ensures
        PodU16::LEN == 2,
        PodU32::LEN == 4,
        PodU64::LEN == 8,
        PodU128::LEN == 16,
{
}

} // verus!
