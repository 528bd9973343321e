//! Netlink attributes: the `(length, type, value)` framing of
//! `netlink_packet_utils::nla::NlaBuffer`, and the attribute values that the
//! library hands on.
use crate::bytes::{lemma_ne_bytes_len, lemma_u16_roundtrip, ne_bytes_u16, ne_value_u16, overwrite};
use crate::constants::{NLA_HEADER_SIZE, NLA_TYPE_MASK};
use netlink_packet_utils::nla::NlaBuffer;
use netlink_packet_utils::DecodeError;
use vstd::prelude::*;

verus! {

#[verifier::external_type_specification]
#[verifier::external_body]
pub struct ExDecodeError(DecodeError);

/// The length field of a raw attribute: its first two bytes, in the
/// machine's byte order. It counts the header and the value.
pub open spec fn nla_length_field(raw: Seq<u8>) -> u16 {
    ne_value_u16(raw.subrange(0, 2))
}

/// The type field of a raw attribute: bytes two and three, in the machine's
/// byte order.
pub open spec fn nla_type_field(raw: Seq<u8>) -> u16 {
    ne_value_u16(raw.subrange(2, 4))
}

/// A raw attribute is well framed when it holds a header and its length
/// field covers the header and does not run past the buffer.
pub open spec fn nla_well_framed(raw: Seq<u8>) -> bool {
    &&& raw.len() >= NLA_HEADER_SIZE
    &&& raw.len() >= nla_length_field(raw)
    &&& nla_length_field(raw) >= NLA_HEADER_SIZE
}

/// The value of a raw attribute: the bytes after the header, up to its length
/// field.
pub open spec fn nla_value_bytes(raw: Seq<u8>) -> Seq<u8> {
    raw.subrange(NLA_HEADER_SIZE as int, nla_length_field(raw) as int)
}

/// An attribute as a kind and a value.
pub struct NlaModel {
    pub kind: u16,
    pub value: Seq<u8>,
}

/// An attribute whose layout the library does not interpret: a kind and the
/// bytes of its value.
#[derive(Debug, Clone, PartialEq, Eq)]
pub struct DefaultNla {
    pub kind: u16,
    pub value: Vec<u8>,
}

impl View for DefaultNla {
    type V = NlaModel;

    open spec fn view(&self) -> NlaModel {
        NlaModel { kind: self.kind, value: self.value@ }
    }
}

/// `NlaBuffer::new_checked`: succeeds exactly when `raw` is well framed
/// (at least a header long, length field at least a header and at most the
/// buffer). What the error holds is not stated.
#[verifier::external_body]
fn nla_new_checked(raw: &[u8]) -> (r: Result<(), DecodeError>)
    ensures
        r is Ok <==> nla_well_framed(raw@),
{
    match NlaBuffer::new_checked(raw) {
        Ok(_) => Ok(()),
        Err(e) => Err(e),
    }
}

/// `NlaBuffer::set_kind` on the buffer `raw`: bytes two and three become
/// `kind & NLA_TYPE_MASK` in the machine's byte order; nothing else changes.
/// It panics on a buffer shorter than a header, which `requires` leaves out.
#[verifier::external_body]
fn nla_set_kind(raw: &mut Vec<u8>, kind: u16)
    requires
        old(raw).len() >= NLA_HEADER_SIZE,
    ensures
        final(raw)@ == overwrite(old(raw)@, 2, ne_bytes_u16(kind & NLA_TYPE_MASK)),
{
    NlaBuffer::new(raw.as_mut_slice()).set_kind(kind)
}

/// `NlaBuffer::kind` on the buffer `raw`: the type field with the two flag
/// bits cleared. It panics on a buffer shorter than a header, which
/// `requires` leaves out.
#[verifier::external_body]
fn nla_kind(raw: &[u8]) -> (k: u16)
    requires
        raw.len() >= NLA_HEADER_SIZE,
    ensures
        k == nla_type_field(raw@) & NLA_TYPE_MASK,
{
    NlaBuffer::new(raw).kind()
}

/// `NlaBuffer::value_mut` on the buffer `raw`, copied into a vector: the
/// bytes after the header up to the length field; `raw` is left as it was.
/// It panics unless the attribute is well framed, which `requires` leaves
/// out.
#[verifier::external_body]
fn nla_value(raw: &mut Vec<u8>) -> (v: Vec<u8>)
    requires
        nla_well_framed(old(raw)@),
    ensures
        final(raw)@ == old(raw)@,
        v@ == nla_value_bytes(old(raw)@),
{
    NlaBuffer::new(raw.as_mut_slice()).value_mut().to_vec()
}

proof fn lemma_mask_idempotent(k: u16)
    ensures
        (k & NLA_TYPE_MASK) & NLA_TYPE_MASK == k & NLA_TYPE_MASK,
{
    assert((k & 0x3FFFu16) & 0x3FFFu16 == k & 0x3FFFu16) by (bit_vector);
}

/// Frames the raw attribute `raw` as an attribute of kind `kind`: checks the
/// framing, writes the kind into the type field, reads the kind back and
/// copies the value. It fails exactly when `raw` is not well framed.
pub fn attribute_from_raw(raw: Vec<u8>, kind: u16) -> (r: Result<DefaultNla, DecodeError>)
    ensures
        r is Ok <==> nla_well_framed(raw@),
        r matches Ok(nla) ==> nla@ == (NlaModel {
            kind: kind & NLA_TYPE_MASK,
            value: nla_value_bytes(raw@),
        }),
{
    let mut raw = raw;
    match nla_new_checked(raw.as_slice()) {
        Ok(()) => {},
        Err(e) => {
            return Err(e);
        },
    }
    let ghost before = raw@;
    nla_set_kind(&mut raw, kind);
    proof {
        lemma_ne_bytes_len(kind & NLA_TYPE_MASK, 0, 0);
        assert(raw@.subrange(0, 2) =~= before.subrange(0, 2));
        assert(raw@.subrange(2, 4) =~= ne_bytes_u16(kind & NLA_TYPE_MASK));
        lemma_u16_roundtrip(kind & NLA_TYPE_MASK);
        lemma_mask_idempotent(kind);
        assert(nla_value_bytes(raw@) =~= nla_value_bytes(before));
    }
    let k = nla_kind(raw.as_slice());
    let value = nla_value(&mut raw);
    Ok(DefaultNla { kind: k, value })
}

} // verus!
