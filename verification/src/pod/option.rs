//! An optional value in a fixed layout, and what holds of its encoding.

use crate::pod::bytes::lemma_byte_lens;
use crate::pod::integers::lemma_integer_lens;
use crate::pod::integers::PodU64;
use crate::pod::zeros;
use crate::pod::Pod;
use crate::utils::DataLen;
use vstd::prelude::*;
use vstd::std_specs::cmp::PartialEqSpec;
use vstd::std_specs::convert::FromSpec;
use vstd::std_specs::convert::TryFromSpec;

verus! {

/// An optional value in a fixed layout: one tag byte (0 absent, 1 present)
/// followed by the payload's bytes. The payload can be read only through
/// the accessors, and they hand it out only where the tag says it is there.
#[derive(Debug)]
pub struct PodOption<T> {
    tag: u8,
    value: Option<T>,
}

impl<T> View for PodOption<T> {
    type V = Option<T>;

    /// The payload, where the tag says that there is one.
    closed spec fn view(&self) -> Option<T> {
        if self.tag == 1 {
            self.value
        } else {
            None
        }
    }
}

/// A mutable reference to what an `Option` holds.
fn payload_mut<T>(value: &mut Option<T>) -> (r: Option<&mut T>)
    ensures
        r is Some <==> *old(value) is Some,
        r is Some <==> *final(value) is Some,
        r is Some ==> *r->0 == old(value)->0,
        r is Some ==> final(value)->0 == *final(r->0),
    no_unwind
{
    match value {
        Some(v) => Some(v),
        None => None,
    }
}

impl<T> PodOption<T> {
    /// The tag of an absent value.
    pub const NONE_TAG: u8 = 0;

    /// The tag of a present value.
    pub const SOME_TAG: u8 = 1;

    #[verifier::type_invariant]
    spec fn inv(self) -> bool {
        self.coherent()
    }

    /// The tag byte.
    pub closed spec fn spec_tag(&self) -> u8 {
        self.tag
    }

    /// A payload is held exactly where the tag is 1. It holds of every
    /// value that the functions of this type hand out.
    pub closed spec fn coherent(&self) -> bool {
        self.tag == 1 <==> self.value is Some
    }

    /// The value with the given tag byte, holding `payload` where the tag
    /// is 1 and nothing otherwise.
    pub closed spec fn raw(tag: u8, payload: T) -> Self {
        PodOption { tag, value: if tag == 1 { Some(payload) } else { None } }
    }

    /// What `raw` builds.
    pub proof fn lemma_raw(tag: u8, payload: T)
        ensures
            Self::raw(tag, payload).spec_tag() == tag,
            Self::raw(tag, payload)@ == (if tag == 1 { Some(payload) } else { None::<T> }),
            Self::raw(tag, payload).coherent(),
    {
    }

    /// A coherent value is determined by its tag and its payload.
    pub proof fn lemma_determined(a: Self, b: Self)
        requires
            a.coherent(),
            b.coherent(),
            a.spec_tag() == b.spec_tag(),
            a@ == b@,
        ensures
            a == b,
    {
    }

    /// A coherent value has a payload exactly where its tag is 1.
    pub proof fn lemma_coherent(a: Self)
        requires
            a.coherent(),
        ensures
            a@ is Some <==> a.spec_tag() == 1,
    {
    }

    /// The absent value.
    pub fn none() -> (r: Self)
        ensures
            r.spec_tag() == 0,
            r@ is None,
            r.coherent(),
    {
        PodOption { tag: 0, value: None }
    }

    /// The value that holds `v`.
    pub fn some(v: T) -> (r: Self)
        ensures
            r.spec_tag() == 1,
            r@ == Some(v),
            r.coherent(),
    {
        PodOption { tag: 1, value: Some(v) }
    }

    /// Whether the tag says that there is a payload.
    pub fn is_some(&self) -> (r: bool)
        ensures
            r == (self.spec_tag() == 1),
            r == (self@ is Some),
    {
        proof {
            use_type_invariant(self);
        }
        self.tag == 1
    }

    /// Whether the tag says that there is no payload. A value with a tag
    /// out of range is neither some nor none.
    pub fn is_none(&self) -> (r: bool)
        ensures
            r == (self.spec_tag() == 0),
            r ==> self@ is None,
    {
        self.tag == 0
    }

    /// The tag byte.
    #[verifier::when_used_as_spec(spec_tag)]
    pub fn tag(&self) -> (r: u8)
        ensures
            r == self.spec_tag(),
    {
        self.tag
    }

    /// Whether the tag is one of the two that an encoder writes.
    pub fn is_valid_tag(&self) -> (r: bool)
        ensures
            r == (self.spec_tag() == 0 || self.spec_tag() == 1),
    {
        self.tag == 0 || self.tag == 1
    }

    /// A reference to the payload, if the tag says that there is one.
    pub fn as_ref(&self) -> (r: Option<&T>)
        ensures
            r is Some <==> self@ is Some,
            r is Some ==> *r->0 == self@->0,
    {
        proof {
            use_type_invariant(self);
        }
        if self.tag == 1 {
            self.value.as_ref()
        } else {
            None
        }
    }

    /// A mutable reference to the payload, if the tag says that there is
    /// one. Writing through it changes the payload and nothing else.
    pub fn as_mut(&mut self) -> (r: Option<&mut T>)
        ensures
            r is Some <==> old(self)@ is Some,
            r is Some ==> *r->0 == old(self)@->0,
            r is Some ==> final(self)@ == Some(*final(r->0)),
            r is None ==> *final(self) == *old(self),
            final(self).spec_tag() == old(self).spec_tag(),
            final(self).coherent(),
    {
        proof {
            use_type_invariant(&*self);
        }
        payload_mut(&mut self.value)
    }

    /// Makes the value absent.
    pub fn set_none(&mut self)
        ensures
            final(self).spec_tag() == 0,
            final(self)@ is None,
            final(self).coherent(),
    {
        *self = PodOption { tag: 0, value: None };
    }

    /// Makes the value hold `v`.
    pub fn set_some(&mut self, v: T)
        ensures
            final(self).spec_tag() == 1,
            final(self)@ == Some(v),
            final(self).coherent(),
    {
        *self = PodOption { tag: 1, value: Some(v) };
    }

    /// A copy of the payload, if the tag says that there is one.
    pub fn copied(&self) -> (r: Option<T>) where T: Copy
        ensures
            r == self@,
    {
        proof {
            use_type_invariant(self);
        }
        if self.tag == 1 {
            self.value
        } else {
            None
        }
    }

    /// Hands the payload out and leaves the value absent. A value without
    /// a payload is left as it is, whatever its tag.
    pub fn take(&mut self) -> (r: Option<T>) where T: Copy
        ensures
            r == old(self)@,
            old(self)@ is Some ==> final(self).spec_tag() == 0 && final(self)@ is None,
            old(self)@ is None ==> *final(self) == *old(self),
            final(self).coherent(),
    {
        proof {
            use_type_invariant(&*self);
        }
        if self.tag == 1 {
            let v = self.value;
            *self = PodOption { tag: 0, value: None };
            v
        } else {
            None
        }
    }
}

impl<T: Copy> Copy for PodOption<T> {

}

impl<T: Copy> Clone for PodOption<T> {
    fn clone(&self) -> (r: Self)
        ensures
            r == *self,
    {
        *self
    }
}

impl<T> Default for PodOption<T> {
    fn default() -> (r: Self)
        ensures
            r.spec_tag() == 0,
            r@ is None,
            r.coherent(),
    {
        PodOption::none()
    }
}

impl<T> From<Option<T>> for PodOption<T> {
    fn from(o: Option<T>) -> (ret: Self)
        ensures
            ret.spec_tag() == (if o is Some { 1u8 } else { 0u8 }),
            ret@ == o,
            ret.coherent(),
    {
        match o {
            Some(v) => PodOption { tag: 1, value: Some(v) },
            None => PodOption { tag: 0, value: None },
        }
    }
}

impl<T> vstd::std_specs::convert::FromSpecImpl<Option<T>> for PodOption<T> {
    open spec fn obeys_from_spec() -> bool {
        true
    }

    closed spec fn from_spec(o: Option<T>) -> Self {
        PodOption { tag: if o is Some { 1u8 } else { 0u8 }, value: o }
    }
}

/// What the conversion from an `Option` builds: tag 1 around a payload,
/// tag 0 around none.
pub proof fn lemma_from_option<T>(o: Option<T>)
    ensures
        PodOption::<T>::from_spec(o).spec_tag() == (if o is Some { 1u8 } else { 0u8 }),
        PodOption::<T>::from_spec(o)@ == o,
        PodOption::<T>::from_spec(o).coherent(),
{
}

impl<T> TryFrom<PodOption<T>> for Option<T> {
    type Error = ();

    fn try_from(p: PodOption<T>) -> (ret: Result<Self, Self::Error>) {
        proof {
            use_type_invariant(&p);
        }
        if p.tag == 0 {
            Ok(None)
        } else if p.tag == 1 {
            Ok(p.value)
        } else {
            Err(())
        }
    }
}

impl<T> vstd::std_specs::convert::TryFromSpecImpl<PodOption<T>> for Option<T> {
    open spec fn obeys_try_from_spec() -> bool {
        true
    }

    open spec fn try_from_spec(p: PodOption<T>) -> Result<Self, Self::Error> {
        if p.spec_tag() == 0 || p.spec_tag() == 1 {
            Ok(p@)
        } else {
            Err(())
        }
    }
}

impl<T: PartialEq> PartialEq for PodOption<T> {
    /// Two values are equal where both hold equal payloads or neither holds
    /// one.
    fn eq(&self, other: &Self) -> (r: bool) {
        match (self.as_ref(), other.as_ref()) {
            (Some(a), Some(b)) => a == b,
            (None, None) => true,
            _ => false,
        }
    }
}

impl<T: PartialEq> vstd::std_specs::cmp::PartialEqSpecImpl for PodOption<T> {
    open spec fn obeys_eq_spec() -> bool {
        T::obeys_eq_spec()
    }

    open spec fn eq_spec(&self, other: &Self) -> bool {
        match (self@, other@) {
            (Some(a), Some(b)) => a.eq_spec(&b),
            (None, None) => true,
            _ => false,
        }
    }
}

impl<T: Eq> Eq for PodOption<T> {

}

impl<T: Pod> PodOption<T> {
    /// Well-formed: coherent, with a well-formed payload where there is one.
    pub open spec fn tagged_wf(&self) -> bool {
        &&& self.coherent()
        &&& self@ matches Some(v) ==> v.wf()
    }

    /// The tag byte, then the payload's bytes, or zeros where there is no
    /// payload.
    pub open spec fn tagged_layout(&self) -> Seq<u8> {
        seq![self.spec_tag()] + (match self@ {
            Some(v) => v.layout(),
            None => zeros(T::LEN as nat),
        })
    }

    /// The first byte is the tag; the rest is read as a payload only where
    /// the tag is 1. Any other tag byte is kept as it is.
    pub open spec fn tagged_parse(bytes: Seq<u8>) -> Self {
        Self::raw(bytes[0], T::parse(bytes.skip(1)))
    }

    /// The layout is one byte longer than the payload's.
    pub proof fn lemma_tagged_layout_len(v: Self)
        ensures
            v.tagged_layout().len() == 1 + T::LEN,
    {
        if let Some(x) = v@ {
            T::lemma_layout_len(x);
        }
    }

    /// Decoding the layout of a well-formed value gives the value back.
    pub proof fn lemma_tagged_parse_layout(v: Self)
        requires
            v.tagged_wf(),
        ensures
            Self::tagged_parse(v.tagged_layout()) == v,
    {
        let bytes = v.tagged_layout();
        let payload = T::parse(bytes.skip(1));
        Self::lemma_raw(bytes[0], payload);
        Self::lemma_coherent(v);
        if let Some(x) = v@ {
            T::lemma_parse_layout(x);
            assert(bytes.skip(1) =~= x.layout());
        }
        Self::lemma_determined(Self::tagged_parse(bytes), v);
    }

    /// Decoding gives a well-formed value.
    pub proof fn lemma_tagged_parse_wf(bytes: Seq<u8>)
        requires
            bytes.len() == 1 + T::LEN,
        ensures
            Self::tagged_parse(bytes).tagged_wf(),
    {
        Self::lemma_raw(bytes[0], T::parse(bytes.skip(1)));
        T::lemma_parse_wf(bytes.skip(1));
    }

    /// Decodes a tag byte followed by a payload of `T::LEN` bytes.
    pub fn decode_tagged(bytes: &[u8]) -> (r: Self)
        requires
            bytes@.len() == 1 + T::LEN,
        ensures
            r == Self::tagged_parse(bytes@),
    {
        let tag: u8 = bytes[0];
        if tag == 1 {
            let payload = T::decode(vstd::slice::slice_subrange(bytes, 1, bytes.len()));
            PodOption { tag, value: Some(payload) }
        } else {
            PodOption { tag, value: None }
        }
    }

    /// Appends the tag byte and `T::LEN` bytes of payload to `out`.
    pub fn encode_tagged(&self, out: &mut Vec<u8>)
        ensures
            final(out)@ == old(out)@ + self.tagged_layout(),
    {
        proof {
            use_type_invariant(self);
        }
        out.push(self.tag);
        match &self.value {
            Some(v) => {
                v.encode(out);
            },
            None => {
                let ghost before = out@;
                let mut i: usize = 0;
                while i < T::LEN
                    invariant
                        i <= T::LEN,
                        out@ == before + zeros(i as nat),
                    decreases T::LEN - i,
                {
                    out.push(0);
                    i += 1;
                    assert(out@ =~= before + zeros(i as nat));
                }
            },
        }
        assert(out@ =~= old(out)@ + self.tagged_layout());
    }
}

impl DataLen for PodOption<u8> {
    const LEN: usize = 2;
}

impl Pod for PodOption<u8> {
    open spec fn wf(&self) -> bool {
        self.tagged_wf()
    }

    open spec fn layout(&self) -> Seq<u8> {
        self.tagged_layout()
    }

    open spec fn parse(bytes: Seq<u8>) -> Self {
        Self::tagged_parse(bytes)
    }

    proof fn lemma_layout_len(v: Self) {
        lemma_byte_lens();
        Self::lemma_tagged_layout_len(v);
    }

    proof fn lemma_parse_layout(v: Self) {
        Self::lemma_tagged_parse_layout(v);
    }

    proof fn lemma_parse_wf(bytes: Seq<u8>) {
        lemma_byte_lens();
        Self::lemma_tagged_parse_wf(bytes);
    }

    fn decode(bytes: &[u8]) -> (r: Self) {
        proof {
            lemma_byte_lens();
        }
        Self::decode_tagged(bytes)
    }

    fn encode(&self, out: &mut Vec<u8>) {
        self.encode_tagged(out);
    }
}

impl DataLen for PodOption<PodU64> {
    const LEN: usize = 9;
}

impl Pod for PodOption<PodU64> {
    open spec fn wf(&self) -> bool {
        self.tagged_wf()
    }

    open spec fn layout(&self) -> Seq<u8> {
        self.tagged_layout()
    }

    open spec fn parse(bytes: Seq<u8>) -> Self {
        Self::tagged_parse(bytes)
    }

    proof fn lemma_layout_len(v: Self) {
        lemma_integer_lens();
        Self::lemma_tagged_layout_len(v);
    }

    proof fn lemma_parse_layout(v: Self) {
        Self::lemma_tagged_parse_layout(v);
    }

    proof fn lemma_parse_wf(bytes: Seq<u8>) {
        lemma_integer_lens();
        Self::lemma_tagged_parse_wf(bytes);
    }

    fn decode(bytes: &[u8]) -> (r: Self) {
        proof {
            lemma_integer_lens();
        }
        Self::decode_tagged(bytes)
    }

    fn encode(&self, out: &mut Vec<u8>) {
        self.encode_tagged(out);
    }
}

impl DataLen for PodOption<[u8; 32]> {
    const LEN: usize = 33;
}

impl Pod for PodOption<[u8; 32]> {
    open spec fn wf(&self) -> bool {
        self.tagged_wf()
    }

    open spec fn layout(&self) -> Seq<u8> {
        self.tagged_layout()
    }

    open spec fn parse(bytes: Seq<u8>) -> Self {
        Self::tagged_parse(bytes)
    }

    proof fn lemma_layout_len(v: Self) {
        lemma_byte_lens();
        Self::lemma_tagged_layout_len(v);
    }

    proof fn lemma_parse_layout(v: Self) {
        Self::lemma_tagged_parse_layout(v);
    }

    proof fn lemma_parse_wf(bytes: Seq<u8>) {
        lemma_byte_lens();
        Self::lemma_tagged_parse_wf(bytes);
    }

    fn decode(bytes: &[u8]) -> (r: Self) {
        proof {
            lemma_byte_lens();
        }
        Self::decode_tagged(bytes)
    }

    fn encode(&self, out: &mut Vec<u8>) {
        self.encode_tagged(out);
    }
}

/// The sizes of the layouts of optional values.
pub proof fn lemma_option_lens()
    ensures
        PodOption::<u8>::LEN == 2,
        PodOption::<PodU64>::LEN == 9,
        PodOption::<[u8; 32]>::LEN == 33,
{
}

/// An absent value survives its byte layout: decoding the bytes that
/// encoding gave yields the absent value again.
pub proof fn lemma_absent_round_trip<T: Pod>(p: PodOption<T>)
    requires
        p.coherent(),
        p.spec_tag() == 0,
    ensures
        PodOption::<T>::tagged_parse(p.tagged_layout()) == p,
        PodOption::<T>::tagged_parse(p.tagged_layout())@ is None,
{
    PodOption::<T>::lemma_coherent(p);
    PodOption::<T>::lemma_tagged_parse_layout(p);
}

/// A present value survives its byte layout: decoding the bytes that
/// encoding gave yields exactly the payload that went in.
pub proof fn lemma_present_round_trip<T: Pod>(p: PodOption<T>, v: T)
    requires
        p.coherent(),
        p@ == Some(v),
        v.wf(),
    ensures
        PodOption::<T>::tagged_parse(p.tagged_layout()) == p,
        PodOption::<T>::tagged_parse(p.tagged_layout())@ == Some(v),
{
    PodOption::<T>::lemma_tagged_parse_layout(p);
}

/// A buffer whose tag byte is neither 0 nor 1 does not decode to an absent
/// value by default: the tag is kept, no payload can be read, and the
/// conversion to `Option` fails.
pub proof fn lemma_corrupt_tag_is_refused<T: Pod>(bytes: Seq<u8>)
    requires
        bytes.len() == 1 + T::LEN,
        bytes[0] != 0,
        bytes[0] != 1,
    ensures
        PodOption::<T>::tagged_parse(bytes).spec_tag() == bytes[0],
        PodOption::<T>::tagged_parse(bytes)@ is None,
        Option::<T>::try_from_spec(PodOption::<T>::tagged_parse(bytes)) is Err,
{
    PodOption::<T>::lemma_raw(bytes[0], T::parse(bytes.skip(1)));
}

/// Converting an `Option` to its fixed-layout form and back gives the
/// `Option` again.
pub proof fn lemma_option_conversion_round_trip<T>(o: Option<T>)
    ensures
        Option::<T>::try_from_spec(PodOption::<T>::from_spec(o)) == Ok::<Option<T>, ()>(o),
{
    lemma_from_option(o);
}

} // verus!
