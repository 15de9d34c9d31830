//! One TLV: tag, declared length and value.

use crate::tlvs::owned::value::{TlvValue, TlvValueView};
use crate::tlvs::tag::TlvTag;
use crate::types::any_octet_string::AnyOctetString;
use crate::types::big_endian::{
    be_bytes, be_decode, be_encode, be_value, law_be_value_of_bytes, lemma_be_bytes_len,
    radix_pow,
};
use vstd::prelude::*;
use vstd::slice::{slice_subrange, slice_to_vec};
use vstd::std_specs::convert::FromSpecImpl;
use vstd::utf8::{
    decode_utf8, encode_utf8, encode_utf8_decode_utf8, encode_utf8_valid_utf8, valid_utf8,
};

verus! {

/// The length field that stands for a value of `length` bytes: the length
/// itself where 16 bits hold it, its 16 low-order bits beyond that.
pub open spec fn declared_length(length: nat) -> u16 {
    (length % 0x1_0000) as u16
}

/// `bytes` without its last byte where that byte is zero, `bytes` elsewhere.
pub open spec fn strip_terminator(bytes: Seq<u8>) -> Seq<u8> {
    if bytes.len() > 0 && bytes.last() == 0 {
        bytes.drop_last()
    } else {
        bytes
    }
}

/// A TLV: the unit in which a PDU carries one optional parameter.
#[derive(Debug, Clone, PartialEq, Eq, Hash, PartialOrd, Ord)]
pub struct Tlv {
    tag: TlvTag,
    value_length: u16,
    value: Option<TlvValue>,
}

/// What a [`Tlv`] holds.
pub struct TlvView {
    pub tag: TlvTag,
    pub value_length: u16,
    pub value: Option<TlvValueView>,
}

impl TlvView {
    /// The record that carries `value`: tag and declared length are those of
    /// the value.
    pub open spec fn of_value(value: TlvValueView) -> TlvView {
        TlvView {
            tag: value.tag(),
            value_length: declared_length(value.length()),
            value: Some(value),
        }
    }

    /// The record that carries `bytes` uninterpreted under the tag number
    /// `tag`.
    pub open spec fn custom(tag: u16, bytes: Seq<u8>) -> TlvView {
        TlvView::of_value(TlvValueView::Other { tag: TlvTag::Other(tag), value: bytes })
    }

    /// Tag and declared length agree with the value: with a value they are
    /// its tag and its length on the wire, without one the length is zero.
    pub open spec fn is_consistent(self) -> bool {
        match self.value {
            Some(value) => self.tag == value.tag() && self.value_length == value.length(),
            None => self.value_length == 0,
        }
    }

    /// The payload, where the record carries the raw variant.
    pub open spec fn raw_bytes(self) -> Option<Seq<u8>> {
        match self.value {
            Some(value) => value.raw_bytes(),
            None => None,
        }
    }

    /// The raw payload read as a big-endian unsigned integer of exactly
    /// `width` bytes.
    pub open spec fn uint_payload(self, width: nat) -> Option<nat> {
        match self.raw_bytes() {
            Some(bytes) => if bytes.len() == width {
                Some(be_value(bytes))
            } else {
                None
            },
            None => None,
        }
    }

    /// The raw payload read as UTF-8 text, after one trailing zero byte, if
    /// there is one, is taken off.
    pub open spec fn string_payload(self) -> Option<Seq<char>> {
        match self.raw_bytes() {
            Some(bytes) => if valid_utf8(strip_terminator(bytes)) {
                Some(decode_utf8(strip_terminator(bytes)))
            } else {
                None
            },
            None => None,
        }
    }
}

/// The view of a value that may be absent.
pub open spec fn value_view(value: Option<TlvValue>) -> Option<TlvValueView> {
    match value {
        Some(value) => Some(value@),
        None => None,
    }
}

impl View for Tlv {
    type V = TlvView;

    closed spec fn view(&self) -> TlvView {
        TlvView { tag: self.tag, value_length: self.value_length, value: value_view(self.value) }
    }
}

/// The 16 low-order bits of `length`.
fn truncate_length(length: usize) -> (declared: u16)
    ensures
        declared == declared_length(length as nat),
        length <= u16::MAX ==> declared == length,
{
    let declared: u16 = #[verifier::truncate] (length as u16);
    assert(declared == (length % 0x1_0000) as u16) by (bit_vector)
        requires
            declared == length as u16,
    ;
    declared
}

impl Tlv {
    /// The record that [`Tlv::new`] and `Tlv::from` build around `value`.
    pub closed spec fn spec_new(value: TlvValue) -> Tlv {
        Tlv {
            tag: value@.tag(),
            value_length: declared_length(value@.length()),
            value: Some(value),
        }
    }

    /// Wraps a value. Tag and declared length are derived from the value,
    /// never supplied, so the record is consistent whenever the value's
    /// length fits the 16-bit length field.
    ///
    /// The value is what `value` converts into. For a `TlvValue` that is the
    /// value itself; see `Tlv::from` for the contract in that case.
    pub fn new<V: Into<TlvValue>>(value: V) -> (tlv: Tlv)
        ensures
            exists|converted: TlvValue| #[trigger]
                call_ensures(V::into, (value,), converted) && tlv == Tlv::spec_new(converted)
                    && tlv@ == TlvView::of_value(converted@),
            tlv@.value matches Some(held) && tlv@ == TlvView::of_value(held),
    {
        let value: TlvValue = value.into();
        let tag: TlvTag = value.tag();
        let value_length: u16 = truncate_length(value.length());
        Tlv { tag, value_length, value: Some(value) }
    }

    /// Builds a record from its three parts as they stand, without checking
    /// that they agree.
    pub fn from_parts(tag: TlvTag, value_length: u16, value: Option<TlvValue>) -> (tlv: Tlv)
        ensures
            tlv@ == (TlvView { tag, value_length, value: value_view(value) }),
    {
        Tlv { tag, value_length, value }
    }

    /// The tag.
    pub fn tag(&self) -> (tag: TlvTag)
        ensures
            tag == self@.tag,
    {
        self.tag
    }

    /// The declared length: the number in the length field.
    pub fn value_length(&self) -> (value_length: u16)
        ensures
            value_length == self@.value_length,
    {
        self.value_length
    }

    /// The value, if the record has one.
    pub fn value(&self) -> (value: Option<&TlvValue>)
        ensures
            match value {
                Some(held) => self@.value == Some(held@),
                None => self@.value is None,
            },
    {
        self.value.as_ref()
    }

    /// A record that carries `value` uninterpreted under the tag number
    /// `tag`. The number need not lie in the vendor range.
    pub fn new_custom(tag: u16, value: Vec<u8>) -> (tlv: Tlv)
        ensures
            tlv@ == TlvView::custom(tag, value@),
            tlv@.raw_bytes() == Some(value@),
            value@.len() <= u16::MAX ==> tlv@.is_consistent(),
    {
        let tag: TlvTag = TlvTag::Other(tag);
        let value_length: u16 = truncate_length(value.len());
        let value: TlvValue = TlvValue::Other { tag, value: AnyOctetString::new(value) };
        Tlv { tag, value_length, value: Some(value) }
    }

    /// A custom record whose payload is `value` in two bytes, big-endian.
    pub fn new_custom_u16(tag: u16, value: u16) -> (tlv: Tlv)
        ensures
            tlv@ == TlvView::custom(tag, be_bytes(value as nat, 2)),
            tlv@.value_length == 2,
            tlv@.is_consistent(),
            tlv@.uint_payload(2) == Some(value as nat),
    {
        proof {
            lemma_be_bytes_len(value as nat, 2);
            law_u16_round_trip(tag, value);
        }
        Self::new_custom(tag, be_encode(value as u64, 2))
    }

    /// A custom record whose payload is `value` in four bytes, big-endian.
    pub fn new_custom_u32(tag: u16, value: u32) -> (tlv: Tlv)
        ensures
            tlv@ == TlvView::custom(tag, be_bytes(value as nat, 4)),
            tlv@.value_length == 4,
            tlv@.is_consistent(),
            tlv@.uint_payload(4) == Some(value as nat),
    {
        proof {
            lemma_be_bytes_len(value as nat, 4);
            law_u32_round_trip(tag, value);
        }
        Self::new_custom(tag, be_encode(value as u64, 4))
    }

    /// A custom record whose payload is `value` in eight bytes, big-endian.
    pub fn new_custom_u64(tag: u16, value: u64) -> (tlv: Tlv)
        ensures
            tlv@ == TlvView::custom(tag, be_bytes(value as nat, 8)),
            tlv@.value_length == 8,
            tlv@.is_consistent(),
            tlv@.uint_payload(8) == Some(value as nat),
    {
        proof {
            lemma_be_bytes_len(value as nat, 8);
            law_u64_round_trip(tag, value);
        }
        Self::new_custom(tag, be_encode(value, 8))
    }

    /// A custom record whose payload is the UTF-8 bytes of `value` and one
    /// zero byte after them.
    pub fn new_custom_string(tag: u16, value: &str) -> (tlv: Tlv)
        ensures
            tlv@ == TlvView::custom(tag, encode_utf8(value@).push(0u8)),
            encode_utf8(value@).len() < u16::MAX ==> tlv@.is_consistent(),
            tlv@.string_payload() == Some(value@),
    {
        proof {
            law_string_round_trip(tag, value@);
        }
        let mut bytes: Vec<u8> = slice_to_vec(value.as_bytes());
        bytes.push(0);
        Self::new_custom(tag, bytes)
    }

    /// The payload of a record that carries the raw variant; nothing for a
    /// typed value and for a record without value.
    pub fn extract_raw_bytes(&self) -> (bytes: Option<&[u8]>)
        ensures
            match bytes {
                Some(bytes) => self@.raw_bytes() == Some(bytes@),
                None => self@.raw_bytes() is None,
            },
    {
        if let Some(TlvValue::Other { value, .. }) = &self.value {
            Some(value.bytes())
        } else {
            None
        }
    }

    /// The raw payload as a big-endian `u16`, where it is exactly two bytes
    /// long.
    pub fn extract_u16(&self) -> (value: Option<u16>)
        ensures
            match value {
                Some(value) => self@.uint_payload(2) == Some(value as nat),
                None => self@.uint_payload(2) is None,
            },
            value is Some <==> (self@.raw_bytes() matches Some(bytes) && bytes.len() == 2),
    {
        let bytes = self.extract_raw_bytes()?;
        if bytes.len() == 2 {
            proof {
                reveal_with_fuel(radix_pow, 3);
            }
            Some(be_decode(bytes) as u16)
        } else {
            None
        }
    }

    /// The raw payload as a big-endian `u32`, where it is exactly four bytes
    /// long.
    pub fn extract_u32(&self) -> (value: Option<u32>)
        ensures
            match value {
                Some(value) => self@.uint_payload(4) == Some(value as nat),
                None => self@.uint_payload(4) is None,
            },
            value is Some <==> (self@.raw_bytes() matches Some(bytes) && bytes.len() == 4),
    {
        let bytes = self.extract_raw_bytes()?;
        if bytes.len() == 4 {
            proof {
                reveal_with_fuel(radix_pow, 5);
            }
            Some(be_decode(bytes) as u32)
        } else {
            None
        }
    }

    /// The raw payload as a big-endian `u64`, where it is exactly eight
    /// bytes long.
    pub fn extract_u64(&self) -> (value: Option<u64>)
        ensures
            match value {
                Some(value) => self@.uint_payload(8) == Some(value as nat),
                None => self@.uint_payload(8) is None,
            },
            value is Some <==> (self@.raw_bytes() matches Some(bytes) && bytes.len() == 8),
    {
        let bytes = self.extract_raw_bytes()?;
        if bytes.len() == 8 {
            Some(be_decode(bytes))
        } else {
            None
        }
    }

    /// The raw payload as text: one trailing zero byte, if there is one, is
    /// taken off, and what is left must be well-formed UTF-8.
    pub fn extract_string(&self) -> (text: Option<String>)
        ensures
            match text {
                Some(text) => self@.string_payload() == Some(text@),
                None => self@.string_payload() is None,
            },
    {
        let bytes = self.extract_raw_bytes()?;
        let length: usize = bytes.len();
        let bytes = if length > 0 && bytes[length - 1] == 0 {
            slice_subrange(bytes, 0, length - 1)
        } else {
            bytes
        };
        String::from_utf8(slice_to_vec(bytes)).ok()
    }
}

impl From<TlvValue> for Tlv {
    /// The record that carries `value`: its value is `value`, its tag that
    /// of `value`, and its declared length the length of `value` on the
    /// wire, as far as 16 bits hold it.
    fn from(value: TlvValue) -> (tlv: Tlv)
        ensures
            tlv@ == TlvView::of_value(value@),
            tlv@.value == Some(value@),
            tlv@.tag == value@.tag(),
            tlv@.value_length == declared_length(value@.length()),
            value@.length() <= u16::MAX ==> tlv@.value_length == value@.length()
                && tlv@.is_consistent(),
    {
        Self::new(value)
    }
}

impl FromSpecImpl<TlvValue> for Tlv {
    open spec fn obeys_from_spec() -> bool {
        true
    }

    open spec fn from_spec(value: TlvValue) -> Tlv {
        Tlv::spec_new(value)
    }
}

/// The record made of a value holds that value under the value's tag. Its
/// declared length is the value's length on the wire, and the record is
/// consistent, exactly if that length is at most 65,535; every typed value
/// but a message payload is that short.
pub proof fn law_record_of_value(value: TlvValueView)
    ensures
        TlvView::of_value(value).value == Some(value),
        TlvView::of_value(value).tag == value.tag(),
        TlvView::of_value(value).value_length == value.length() <==> value.length() <= u16::MAX,
        TlvView::of_value(value).is_consistent() <==> value.length() <= u16::MAX,
        !(value is Other) && !(value is MessagePayload) ==> TlvView::of_value(
            value,
        ).is_consistent(),
{
}

/// A number written by [`Tlv::new_custom_u16`] is the number that
/// [`Tlv::extract_u16`] reads, whatever the tag.
pub proof fn law_u16_round_trip(tag: u16, value: u16)
    ensures
        TlvView::custom(tag, be_bytes(value as nat, 2)).uint_payload(2) == Some(value as nat),
{
    reveal_with_fuel(radix_pow, 3);
    lemma_be_bytes_len(value as nat, 2);
    law_be_value_of_bytes(value as nat, 2);
}

/// A number written by [`Tlv::new_custom_u32`] is the number that
/// [`Tlv::extract_u32`] reads, whatever the tag.
pub proof fn law_u32_round_trip(tag: u16, value: u32)
    ensures
        TlvView::custom(tag, be_bytes(value as nat, 4)).uint_payload(4) == Some(value as nat),
{
    reveal_with_fuel(radix_pow, 5);
    lemma_be_bytes_len(value as nat, 4);
    law_be_value_of_bytes(value as nat, 4);
}

/// A number written by [`Tlv::new_custom_u64`] is the number that
/// [`Tlv::extract_u64`] reads, whatever the tag.
pub proof fn law_u64_round_trip(tag: u16, value: u64)
    ensures
        TlvView::custom(tag, be_bytes(value as nat, 8)).uint_payload(8) == Some(value as nat),
{
    reveal_with_fuel(radix_pow, 9);
    lemma_be_bytes_len(value as nat, 8);
    law_be_value_of_bytes(value as nat, 8);
}

/// A text written by [`Tlv::new_custom_string`] is the text that
/// [`Tlv::extract_string`] reads, whatever the tag and whatever the text,
/// zero bytes in it included: writing adds one zero byte and reading takes
/// one off.
pub proof fn law_string_round_trip(tag: u16, text: Seq<char>)
    ensures
        TlvView::custom(tag, encode_utf8(text).push(0u8)).string_payload() == Some(text),
{
    let encoded = encode_utf8(text);
    assert(strip_terminator(encoded.push(0u8)) =~= encoded);
    encode_utf8_valid_utf8(text);
    encode_utf8_decode_utf8(text);
}

/// A payload that is not exactly `width` bytes long is no integer of that
/// width.
pub proof fn law_uint_needs_exact_width(tlv: TlvView, width: nat)
    ensures
        tlv.uint_payload(width) is Some <==> (tlv.raw_bytes() matches Some(bytes) && bytes.len()
            == width),
{
}

} // verus!
