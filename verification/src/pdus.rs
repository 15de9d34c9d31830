//! PDU kinds that hold optional parameters.

use crate::tlvs::container::{
    find_tlv, has_tag, holds_message_payload, law_push_then_get, take_tlv, TlvContainer,
};
use crate::tlvs::owned::tlv::Tlv;
use crate::tlvs::tag::TlvTag;
use vstd::prelude::*;

verus! {

/// A PDU of a kind that has optional parameters and no short-message field,
/// as `data_sm` has. Only the optional parameters are modelled.
#[derive(Debug, Clone, PartialEq, Eq)]
pub struct PlainPdu {
    tlvs: Vec<Tlv>,
}

impl PlainPdu {
    /// A PDU without optional parameters.
    pub fn new() -> (pdu: Self)
        ensures
            pdu.tlvs() == Seq::<Tlv>::empty(),
    {
        Self { tlvs: Vec::new() }
    }
}

impl Default for PlainPdu {
    fn default() -> (pdu: Self)
        ensures
            pdu.tlvs() == Seq::<Tlv>::empty(),
    {
        Self::new()
    }
}

impl TlvContainer for PlainPdu {
    closed spec fn tlvs(&self) -> Seq<Tlv> {
        self.tlvs@
    }

    open spec fn spec_short_message(&self) -> Option<Seq<u8>> {
        None
    }

    fn push_tlv_raw(&mut self, tlv: Tlv) {
        proof {
            law_push_then_get(self.tlvs@, tlv);
        }
        self.tlvs.push(tlv);
    }

    fn get_tlv(&self, tag: TlvTag) -> (found: Option<&Tlv>) {
        find_tlv(self.tlvs.as_slice(), tag)
    }

    fn get_tlvs(&self) -> (all: &[Tlv]) {
        self.tlvs.as_slice()
    }

    fn get_tlvs_mut(&mut self) -> (all: &mut Vec<Tlv>) {
        &mut self.tlvs
    }

    fn remove_tlv(&mut self, tag: TlvTag) -> (removed: Option<Tlv>) {
        take_tlv(&mut self.tlvs, tag)
    }
}

/// A PDU of a kind that has a short-message field beside its optional
/// parameters, as `submit_sm` and `deliver_sm` have. Only those two parts are
/// modelled.
#[derive(Debug, Clone, PartialEq, Eq)]
pub struct MessagePdu {
    short_message: Vec<u8>,
    tlvs: Vec<Tlv>,
}

impl MessagePdu {
    /// The bytes of the short-message field.
    pub closed spec fn short_message_view(&self) -> Seq<u8> {
        self.short_message@
    }

    /// A PDU with the given short message and no optional parameters.
    pub fn new(short_message: Vec<u8>) -> (pdu: Self)
        ensures
            pdu.tlvs() == Seq::<Tlv>::empty(),
            pdu.short_message_view() == short_message@,
    {
        Self { short_message, tlvs: Vec::new() }
    }

    /// The short-message field.
    pub fn short_message(&self) -> (bytes: &[u8])
        ensures
            bytes@ == self.short_message_view(),
    {
        self.short_message.as_slice()
    }

    /// Empties the short-message field if a message payload is among the
    /// optional parameters.
    fn clear_short_message_if_message_payload_exists(&mut self)
        ensures
            final(self).tlvs() == old(self).tlvs(),
            final(self).short_message_view() == if has_tag(
                old(self).tlvs(),
                TlvTag::MessagePayload,
            ) {
                Seq::<u8>::empty()
            } else {
                old(self).short_message_view()
            },
    {
        if holds_message_payload(self.tlvs.as_slice()) {
            self.short_message.clear();
        }
    }
}

impl Default for MessagePdu {
    fn default() -> (pdu: Self)
        ensures
            pdu.tlvs() == Seq::<Tlv>::empty(),
            pdu.short_message_view() == Seq::<u8>::empty(),
    {
        Self::new(Vec::new())
    }
}

impl TlvContainer for MessagePdu {
    closed spec fn tlvs(&self) -> Seq<Tlv> {
        self.tlvs@
    }

    open spec fn spec_short_message(&self) -> Option<Seq<u8>> {
        Some(self.short_message_view())
    }

    fn push_tlv_raw(&mut self, tlv: Tlv)
        ensures
            tlv@.tag == TlvTag::MessagePayload
                ==> final(self).short_message_view() == Seq::<u8>::empty(),
            !has_tag(final(self).tlvs(), TlvTag::MessagePayload)
                ==> final(self).short_message_view() == old(self).short_message_view(),
    {
        proof {
            law_push_then_get(self.tlvs@, tlv);
        }
        self.tlvs.push(tlv);
        self.clear_short_message_if_message_payload_exists();
    }

    fn get_tlv(&self, tag: TlvTag) -> (found: Option<&Tlv>) {
        find_tlv(self.tlvs.as_slice(), tag)
    }

    fn get_tlvs(&self) -> (all: &[Tlv]) {
        self.tlvs.as_slice()
    }

    fn get_tlvs_mut(&mut self) -> (all: &mut Vec<Tlv>) {
        &mut self.tlvs
    }

    fn remove_tlv(&mut self, tag: TlvTag) -> (removed: Option<Tlv>) {
        take_tlv(&mut self.tlvs, tag)
    }
}

} // verus!
