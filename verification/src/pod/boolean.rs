//! A boolean stored in one byte.

use crate::pod::Pod;
use crate::utils::DataLen;
use vstd::prelude::*;

verus! {

/// A boolean stored in one byte: 0 is false, 1 is true, and every other
/// byte reads as true but is not a valid encoding.
#[derive(Clone, Copy, Debug, PartialEq, Eq)]
pub struct PodBool {
    pub data: u8,
}

impl View for PodBool {
    type V = bool;

    open spec fn view(&self) -> bool {
        self.data != 0
    }
}

impl DataLen for PodBool {
    const LEN: usize = 1;
}

impl Default for PodBool {
    fn default() -> (r: Self)
        ensures
            r.data == 0,
    {
        PodBool { data: 0 }
    }
}

impl PodBool {
    /// Whether the byte is one of the two canonical encodings.
    pub open spec fn valid(&self) -> bool {
        self.data == 0 || self.data == 1
    }

    #[verifier::when_used_as_spec(valid)]
    pub fn is_valid(&self) -> (r: bool)
        ensures
            r == self.valid(),
    {
        self.data == 0 || self.data == 1
    }

    pub fn get(&self) -> (r: bool)
        ensures
            r == self@,
    {
        self.data != 0
    }

    pub fn set(&mut self, value: bool)
        ensures
            final(self).data == (if value { 1u8 } else { 0u8 }),
            final(self)@ == value,
            final(self).valid(),
    {
        self.data = if value { 1 } else { 0 };
    }
}

impl From<PodBool> for bool {
    fn from(p: PodBool) -> (ret: bool) {
        p.data != 0
    }
}

impl vstd::std_specs::convert::FromSpecImpl<PodBool> for bool {
    open spec fn obeys_from_spec() -> bool {
        true
    }

    open spec fn from_spec(p: PodBool) -> bool {
        p@
    }
}

impl From<bool> for PodBool {
    fn from(b: bool) -> (ret: Self) {
        PodBool { data: if b { 1 } else { 0 } }
    }
}

impl vstd::std_specs::convert::FromSpecImpl<bool> for PodBool {
    open spec fn obeys_from_spec() -> bool {
        true
    }

    open spec fn from_spec(b: bool) -> Self {
        PodBool { data: if b { 1u8 } else { 0u8 } }
    }
}

impl Pod for PodBool {
    open spec fn wf(&self) -> bool {
        true
    }

    open spec fn layout(&self) -> Seq<u8> {
        seq![self.data]
    }

    open spec fn parse(bytes: Seq<u8>) -> Self {
        PodBool { data: bytes[0] }
    }

    proof fn lemma_layout_len(v: Self) {
    }

    proof fn lemma_parse_layout(v: Self) {
    }

    proof fn lemma_parse_wf(bytes: Seq<u8>) {
    }

    fn decode(bytes: &[u8]) -> (r: Self) {
        PodBool { data: bytes[0] }
    }

    fn encode(&self, out: &mut Vec<u8>) {
        out.push(self.data);
    }
}

/// The size of the layout of a boolean.
pub proof fn lemma_bool_len()
    ensures
        PodBool::LEN == 1,
{
}

} // verus!
