//! The 16-bit identifier of an optional parameter.

use vstd::prelude::*;
use vstd::std_specs::convert::FromSpecImpl;

verus! {

/// First tag of the range set aside for vendor-specific parameters.
pub const VENDOR_TAG_FIRST: u16 = 0x1400;

/// Last tag of the range set aside for vendor-specific parameters.
pub const VENDOR_TAG_LAST: u16 = 0x3FFF;

/// The tag of a TLV.
///
/// The standard parameters that this crate types each have a variant of their
/// own. Every other tag, vendor-specific or standard, is carried as
/// [`TlvTag::Other`] with its number.
#[derive(Debug, Clone, Copy, PartialEq, Eq, Hash, PartialOrd, Ord, Structural)]
pub enum TlvTag {
    /// `qos_time_to_live`, 0x0017.
    QosTimeToLive,
    /// `user_message_reference`, 0x0204.
    UserMessageReference,
    /// `user_response_code`, 0x0205.
    UserResponseCode,
    /// `source_port`, 0x020A.
    SourcePort,
    /// `dest_port`, 0x020B.
    DestPort,
    /// `sar_msg_ref_num`, 0x020C.
    SarMsgRefNum,
    /// `sar_total_segments`, 0x020E.
    SarTotalSegments,
    /// `sar_segment_seqnum`, 0x020F.
    SarSegmentSeqnum,
    /// `message_payload`, 0x0424.
    MessagePayload,
    /// `sms_signal`, 0x1203.
    SmsSignal,
    /// Any tag, by its number. Reading a number gives an `Other` only where
    /// the number is that of no typed parameter; a raw record may hold any
    /// number.
    Other(u16),
}

impl TlvTag {
    /// The number that stands for this tag on the wire.
    pub open spec fn spec_code(self) -> u16 {
        match self {
            TlvTag::QosTimeToLive => 0x0017,
            TlvTag::UserMessageReference => 0x0204,
            TlvTag::UserResponseCode => 0x0205,
            TlvTag::SourcePort => 0x020A,
            TlvTag::DestPort => 0x020B,
            TlvTag::SarMsgRefNum => 0x020C,
            TlvTag::SarTotalSegments => 0x020E,
            TlvTag::SarSegmentSeqnum => 0x020F,
            TlvTag::MessagePayload => 0x0424,
            TlvTag::SmsSignal => 0x1203,
            TlvTag::Other(code) => code,
        }
    }

    /// The tag that a number read from the wire stands for: the typed variant
    /// where the number is that of a typed parameter, `Other` elsewhere.
    pub open spec fn spec_from_code(code: u16) -> TlvTag {
        if code == 0x0017 {
            TlvTag::QosTimeToLive
        } else if code == 0x0204 {
            TlvTag::UserMessageReference
        } else if code == 0x0205 {
            TlvTag::UserResponseCode
        } else if code == 0x020A {
            TlvTag::SourcePort
        } else if code == 0x020B {
            TlvTag::DestPort
        } else if code == 0x020C {
            TlvTag::SarMsgRefNum
        } else if code == 0x020E {
            TlvTag::SarTotalSegments
        } else if code == 0x020F {
            TlvTag::SarSegmentSeqnum
        } else if code == 0x0424 {
            TlvTag::MessagePayload
        } else if code == 0x1203 {
            TlvTag::SmsSignal
        } else {
            TlvTag::Other(code)
        }
    }

    /// Whether this is one of the typed standard parameters.
    pub open spec fn is_known(self) -> bool {
        !(self is Other)
    }

    /// Whether the tag's number lies in the vendor range.
    pub open spec fn spec_is_vendor(self) -> bool {
        VENDOR_TAG_FIRST <= self.spec_code() <= VENDOR_TAG_LAST
    }

    /// The number that stands for this tag on the wire.
    #[verifier::when_used_as_spec(spec_code)]
    pub fn code(self) -> (code: u16)
        ensures
            code == self.spec_code(),
    {
        match self {
            TlvTag::QosTimeToLive => 0x0017,
            TlvTag::UserMessageReference => 0x0204,
            TlvTag::UserResponseCode => 0x0205,
            TlvTag::SourcePort => 0x020A,
            TlvTag::DestPort => 0x020B,
            TlvTag::SarMsgRefNum => 0x020C,
            TlvTag::SarTotalSegments => 0x020E,
            TlvTag::SarSegmentSeqnum => 0x020F,
            TlvTag::MessagePayload => 0x0424,
            TlvTag::SmsSignal => 0x1203,
            TlvTag::Other(code) => code,
        }
    }

    /// The tag that a number read from the wire stands for.
    #[verifier::when_used_as_spec(spec_from_code)]
    pub fn from_code(code: u16) -> (tag: TlvTag)
        ensures
            tag == TlvTag::spec_from_code(code),
            tag.spec_code() == code,
    {
        match code {
            0x0017 => TlvTag::QosTimeToLive,
            0x0204 => TlvTag::UserMessageReference,
            0x0205 => TlvTag::UserResponseCode,
            0x020A => TlvTag::SourcePort,
            0x020B => TlvTag::DestPort,
            0x020C => TlvTag::SarMsgRefNum,
            0x020E => TlvTag::SarTotalSegments,
            0x020F => TlvTag::SarSegmentSeqnum,
            0x0424 => TlvTag::MessagePayload,
            0x1203 => TlvTag::SmsSignal,
            _ => TlvTag::Other(code),
        }
    }

    /// Whether the tag's number lies in the vendor range.
    #[verifier::when_used_as_spec(spec_is_vendor)]
    pub fn is_vendor(self) -> (vendor: bool)
        ensures
            vendor == self.spec_is_vendor(),
            vendor ==> self is Other,
    {
        let code: u16 = self.code();
        VENDOR_TAG_FIRST <= code && code <= VENDOR_TAG_LAST
    }
}

impl From<u16> for TlvTag {
    fn from(code: u16) -> (tag: TlvTag) {
        TlvTag::from_code(code)
    }
}

impl FromSpecImpl<u16> for TlvTag {
    open spec fn obeys_from_spec() -> bool {
        true
    }

    open spec fn from_spec(code: u16) -> TlvTag {
        TlvTag::spec_from_code(code)
    }
}

impl From<TlvTag> for u16 {
    fn from(tag: TlvTag) -> (code: u16) {
        tag.code()
    }
}

impl FromSpecImpl<TlvTag> for u16 {
    open spec fn obeys_from_spec() -> bool {
        true
    }

    open spec fn from_spec(tag: TlvTag) -> u16 {
        tag.spec_code()
    }
}

/// Every number reads back as itself: the tag that stands for a number has
/// that number.
pub proof fn law_code_round_trip(code: u16)
    ensures
        TlvTag::spec_from_code(code).spec_code() == code,
{
}

/// A typed tag is the tag that its own number stands for. An `Other` is so
/// too unless it holds the number of a typed parameter.
pub proof fn law_tag_round_trip(tag: TlvTag)
    ensures
        tag.is_known() ==> TlvTag::spec_from_code(tag.spec_code()) == tag,
        TlvTag::spec_from_code(tag.spec_code()) == tag || (tag is Other && TlvTag::spec_from_code(
            tag.spec_code(),
        ).is_known()),
{
}

/// No typed standard parameter has a number in the vendor range: a tag in
/// that range is an `Other`, and the tag that its number stands for.
pub proof fn law_vendor_tags_are_other(tag: TlvTag)
    requires
        tag.spec_is_vendor(),
    ensures
        tag is Other,
        TlvTag::spec_from_code(tag.spec_code()) == tag,
{
}

} // verus!
