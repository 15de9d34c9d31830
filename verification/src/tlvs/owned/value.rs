//! The value of a TLV: typed for the standard parameters, raw bytes for the rest.

use crate::tlvs::tag::TlvTag;
use crate::types::any_octet_string::AnyOctetString;
use vstd::prelude::*;

verus! {

/// The value that a TLV carries.
///
/// Each typed variant is the payload of the standard parameter of that name.
/// [`TlvValue::Other`] is a payload that this crate does not interpret, under
/// the tag it came with: a vendor-specific parameter, or a standard one that
/// has no typed variant.
#[derive(Debug, Clone, PartialEq, Eq, Hash, PartialOrd, Ord)]
pub enum TlvValue {
    /// Seconds for which the message is worth delivering; four bytes.
    QosTimeToLive(u32),
    /// A reference that the sender gave the message; two bytes.
    UserMessageReference(u16),
    /// A response code of the application; one byte.
    UserResponseCode(u8),
    /// The port of the application that sent the message; two bytes.
    SourcePort(u16),
    /// The port of the application that the message is for; two bytes.
    DestPort(u16),
    /// The reference that the segments of one long message share; two bytes.
    SarMsgRefNum(u16),
    /// The number of segments of a long message; one byte.
    SarTotalSegments(u8),
    /// The place of this segment among those of a long message; one byte.
    SarSegmentSeqnum(u8),
    /// The content of the message, in place of the short-message field; as
    /// many bytes as it holds.
    MessagePayload(AnyOctetString),
    /// An alert tone for the handset; two bytes.
    SmsSignal(u16),
    /// Bytes that are not interpreted, under the tag that they came with.
    Other { tag: TlvTag, value: AnyOctetString },
}

/// What a [`TlvValue`] holds, with byte strings as sequences.
pub enum TlvValueView {
    QosTimeToLive(u32),
    UserMessageReference(u16),
    UserResponseCode(u8),
    SourcePort(u16),
    DestPort(u16),
    SarMsgRefNum(u16),
    SarTotalSegments(u8),
    SarSegmentSeqnum(u8),
    MessagePayload(Seq<u8>),
    SmsSignal(u16),
    Other { tag: TlvTag, value: Seq<u8> },
}

impl TlvValueView {
    /// The tag under which this value travels.
    pub open spec fn tag(self) -> TlvTag {
        match self {
            TlvValueView::QosTimeToLive(_) => TlvTag::QosTimeToLive,
            TlvValueView::UserMessageReference(_) => TlvTag::UserMessageReference,
            TlvValueView::UserResponseCode(_) => TlvTag::UserResponseCode,
            TlvValueView::SourcePort(_) => TlvTag::SourcePort,
            TlvValueView::DestPort(_) => TlvTag::DestPort,
            TlvValueView::SarMsgRefNum(_) => TlvTag::SarMsgRefNum,
            TlvValueView::SarTotalSegments(_) => TlvTag::SarTotalSegments,
            TlvValueView::SarSegmentSeqnum(_) => TlvTag::SarSegmentSeqnum,
            TlvValueView::MessagePayload(_) => TlvTag::MessagePayload,
            TlvValueView::SmsSignal(_) => TlvTag::SmsSignal,
            TlvValueView::Other { tag, .. } => tag,
        }
    }

    /// The number of bytes that this value takes on the wire.
    pub open spec fn length(self) -> nat {
        match self {
            TlvValueView::QosTimeToLive(_) => 4,
            TlvValueView::UserMessageReference(_) => 2,
            TlvValueView::UserResponseCode(_) => 1,
            TlvValueView::SourcePort(_) => 2,
            TlvValueView::DestPort(_) => 2,
            TlvValueView::SarMsgRefNum(_) => 2,
            TlvValueView::SarTotalSegments(_) => 1,
            TlvValueView::SarSegmentSeqnum(_) => 1,
            TlvValueView::MessagePayload(bytes) => bytes.len(),
            TlvValueView::SmsSignal(_) => 2,
            TlvValueView::Other { value, .. } => value.len(),
        }
    }

    /// The payload, where this is the raw variant.
    pub open spec fn raw_bytes(self) -> Option<Seq<u8>> {
        match self {
            TlvValueView::Other { value, .. } => Some(value),
            _ => None,
        }
    }
}

impl View for TlvValue {
    type V = TlvValueView;

    open spec fn view(&self) -> TlvValueView {
        match *self {
            TlvValue::QosTimeToLive(v) => TlvValueView::QosTimeToLive(v),
            TlvValue::UserMessageReference(v) => TlvValueView::UserMessageReference(v),
            TlvValue::UserResponseCode(v) => TlvValueView::UserResponseCode(v),
            TlvValue::SourcePort(v) => TlvValueView::SourcePort(v),
            TlvValue::DestPort(v) => TlvValueView::DestPort(v),
            TlvValue::SarMsgRefNum(v) => TlvValueView::SarMsgRefNum(v),
            TlvValue::SarTotalSegments(v) => TlvValueView::SarTotalSegments(v),
            TlvValue::SarSegmentSeqnum(v) => TlvValueView::SarSegmentSeqnum(v),
            TlvValue::MessagePayload(bytes) => TlvValueView::MessagePayload(bytes@),
            TlvValue::SmsSignal(v) => TlvValueView::SmsSignal(v),
            TlvValue::Other { tag, value } => TlvValueView::Other { tag, value: value@ },
        }
    }
}

impl TlvValue {
    /// The tag under which this value travels.
    pub fn tag(&self) -> (tag: TlvTag)
        ensures
            tag == self@.tag(),
            !(self@ is Other) ==> tag.is_known(),
    {
        match self {
            TlvValue::QosTimeToLive(_) => TlvTag::QosTimeToLive,
            TlvValue::UserMessageReference(_) => TlvTag::UserMessageReference,
            TlvValue::UserResponseCode(_) => TlvTag::UserResponseCode,
            TlvValue::SourcePort(_) => TlvTag::SourcePort,
            TlvValue::DestPort(_) => TlvTag::DestPort,
            TlvValue::SarMsgRefNum(_) => TlvTag::SarMsgRefNum,
            TlvValue::SarTotalSegments(_) => TlvTag::SarTotalSegments,
            TlvValue::SarSegmentSeqnum(_) => TlvTag::SarSegmentSeqnum,
            TlvValue::MessagePayload(_) => TlvTag::MessagePayload,
            TlvValue::SmsSignal(_) => TlvTag::SmsSignal,
            TlvValue::Other { tag, .. } => *tag,
        }
    }

    /// The number of bytes that this value takes on the wire.
    pub fn length(&self) -> (length: usize)
        ensures
            length == self@.length(),
    {
        match self {
            TlvValue::QosTimeToLive(_) => 4,
            TlvValue::UserMessageReference(_) => 2,
            TlvValue::UserResponseCode(_) => 1,
            TlvValue::SourcePort(_) => 2,
            TlvValue::DestPort(_) => 2,
            TlvValue::SarMsgRefNum(_) => 2,
            TlvValue::SarTotalSegments(_) => 1,
            TlvValue::SarSegmentSeqnum(_) => 1,
            TlvValue::MessagePayload(bytes) => bytes.length(),
            TlvValue::SmsSignal(_) => 2,
            TlvValue::Other { value, .. } => value.length(),
        }
    }
}

/// A tag designates one shape of value: a typed value travels under the
/// typed tag of its own variant and under no other, and a value under an
/// `Other` tag is raw bytes.
pub proof fn law_tag_designates_shape(value: TlvValueView, other: TlvValueView)
    ensures
        !(value is Other) ==> value.tag().is_known(),
        value.tag() is Other ==> value is Other,
        !(value is Other) && !(other is Other) && value.tag() == other.tag() ==> {
            &&& value is QosTimeToLive <==> other is QosTimeToLive
            &&& value is UserMessageReference <==> other is UserMessageReference
            &&& value is UserResponseCode <==> other is UserResponseCode
            &&& value is SourcePort <==> other is SourcePort
            &&& value is DestPort <==> other is DestPort
            &&& value is SarMsgRefNum <==> other is SarMsgRefNum
            &&& value is SarTotalSegments <==> other is SarTotalSegments
            &&& value is SarSegmentSeqnum <==> other is SarSegmentSeqnum
            &&& value is MessagePayload <==> other is MessagePayload
            &&& value is SmsSignal <==> other is SmsSignal
        },
        !(value is Other) && !(value is MessagePayload) ==> 1 <= value.length() <= 4,
{
}

} // verus!
