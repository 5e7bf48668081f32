//! The layouts of a single byte and of an array of 32 bytes: themselves.

use crate::pod::Pod;
use crate::utils::DataLen;
use vstd::prelude::*;

verus! {

impl DataLen for u8 {
    const LEN: usize = 1;
}

impl Pod for u8 {
    open spec fn wf(&self) -> bool {
        true
    }

    open spec fn layout(&self) -> Seq<u8> {
        seq![*self]
    }

    open spec fn parse(bytes: Seq<u8>) -> Self {
        bytes[0]
    }

    proof fn lemma_layout_len(v: Self) {
    }

    proof fn lemma_parse_layout(v: Self) {
    }

    proof fn lemma_parse_wf(bytes: Seq<u8>) {
    }

    fn decode(bytes: &[u8]) -> (r: Self) {
        bytes[0]
    }

    fn encode(&self, out: &mut Vec<u8>) {
        out.push(*self);
    }
}

impl DataLen for [u8; 32] {
    const LEN: usize = 32;
}

impl Pod for [u8; 32] {
    open spec fn wf(&self) -> bool {
        true
    }

    open spec fn layout(&self) -> Seq<u8> {
        self@
    }

    open spec fn parse(bytes: Seq<u8>) -> Self {
        [
            bytes[0],
            bytes[1],
            bytes[2],
            bytes[3],
            bytes[4],
            bytes[5],
            bytes[6],
            bytes[7],
            bytes[8],
            bytes[9],
            bytes[10],
            bytes[11],
            bytes[12],
            bytes[13],
            bytes[14],
            bytes[15],
            bytes[16],
            bytes[17],
            bytes[18],
            bytes[19],
            bytes[20],
            bytes[21],
            bytes[22],
            bytes[23],
            bytes[24],
            bytes[25],
            bytes[26],
            bytes[27],
            bytes[28],
            bytes[29],
            bytes[30],
            bytes[31],
        ]
    }

    proof fn lemma_layout_len(v: Self) {
    }

    proof fn lemma_parse_layout(v: Self) {
        assert(Self::parse(v.layout()) =~= v);
    }

    proof fn lemma_parse_wf(bytes: Seq<u8>) {
    }

    fn decode(bytes: &[u8]) -> (r: Self) {
        let mut r = [0u8; 32];
        let mut i: usize = 0;
        while i < 32
            invariant
                i <= 32,
                bytes@.len() == 32,
                forall|j: int| 0 <= j < i ==> r@[j] == bytes@[j],
            decreases 32 - i,
        {
            r[i] = bytes[i];
            i += 1;
        }
        assert(r =~= Self::parse(bytes@));
        r
    }

    fn encode(&self, out: &mut Vec<u8>) {
        let mut i: usize = 0;
        while i < 32
            invariant
                i <= 32,
                out@ == old(out)@ + self@.subrange(0, i as int),
            decreases 32 - i,
        {
            out.push(self[i]);
            i += 1;
        }
        assert(self@.subrange(0, 32) =~= self@);
    }
}

/// The sizes of the two layouts of plain bytes.
pub proof fn lemma_byte_lens()
    ensures
        u8::LEN == 1,
        <[u8; 32]>::LEN == 32,
{
}

} // verus!
