use rusmpp_core::tlvs::owned::{Tlv, TlvValue};
use rusmpp_core::tlvs::TlvTag;
use rusmpp_core::types::AnyOctetString;

fn raw(tag: u16, bytes: &[u8]) -> TlvValue {
    TlvValue::Other { tag: TlvTag::Other(tag), value: AnyOctetString::new(bytes.to_vec()) }
}

#[test]
fn new_derives_tag_and_length_from_the_value() {
    let cases = [
        (TlvValue::QosTimeToLive(3600), TlvTag::QosTimeToLive, 4u16),
        (TlvValue::UserMessageReference(7), TlvTag::UserMessageReference, 2),
        (TlvValue::UserResponseCode(1), TlvTag::UserResponseCode, 1),
        (TlvValue::SourcePort(8080), TlvTag::SourcePort, 2),
        (TlvValue::DestPort(443), TlvTag::DestPort, 2),
        (TlvValue::SarMsgRefNum(9), TlvTag::SarMsgRefNum, 2),
        (TlvValue::SarTotalSegments(3), TlvTag::SarTotalSegments, 1),
        (TlvValue::SarSegmentSeqnum(2), TlvTag::SarSegmentSeqnum, 1),
        (
            TlvValue::MessagePayload(AnyOctetString::new(b"hello".to_vec())),
            TlvTag::MessagePayload,
            5,
        ),
        (TlvValue::SmsSignal(0x0102), TlvTag::SmsSignal, 2),
        (raw(0x1400, &[1, 2, 3]), TlvTag::Other(0x1400), 3),
    ];
    for (value, tag, length) in cases {
        assert_eq!(value.tag(), tag);
        assert_eq!(value.length(), length as usize);
        let tlv = Tlv::new(value.clone());
        assert_eq!(tlv.tag(), tag);
        assert_eq!(tlv.value_length(), length);
        assert_eq!(tlv.value(), Some(&value));
        assert_eq!(tlv, Tlv::from(value));
    }
}

#[test]
fn new_with_an_empty_payload_declares_zero() {
    let tlv = Tlv::new(TlvValue::MessagePayload(AnyOctetString::new(Vec::new())));
    assert_eq!(tlv.value_length(), 0);
    assert!(tlv.value().is_some());
}

#[test]
fn typed_values_are_not_raw_bytes() {
    let tlv = Tlv::new(TlvValue::MessagePayload(AnyOctetString::new(vec![0, 1])));
    assert_eq!(tlv.extract_raw_bytes(), None);
    assert_eq!(tlv.extract_u16(), None);
    assert_eq!(tlv.extract_string(), None);
    let tlv = Tlv::new(TlvValue::SourcePort(0x0102));
    assert_eq!(tlv.extract_raw_bytes(), None);
    assert_eq!(tlv.extract_u16(), None);
    assert_eq!(tlv.extract_u32(), None);
    assert_eq!(tlv.extract_u64(), None);
}

#[test]
fn new_custom_keeps_tag_and_bytes() {
    let tlv = Tlv::new_custom(0x1400, vec![1, 2, 3, 4]);
    assert_eq!(tlv.tag(), TlvTag::Other(0x1400));
    assert_eq!(tlv.value_length(), 4);
    assert_eq!(tlv.value(), Some(&raw(0x1400, &[1, 2, 3, 4])));
    assert_eq!(tlv.extract_raw_bytes(), Some(&[1u8, 2, 3, 4][..]));
}

#[test]
fn new_custom_takes_any_tag_number() {
    let tlv = Tlv::new_custom(0x0424, vec![9]);
    assert_eq!(tlv.tag(), TlvTag::Other(0x0424));
    assert_ne!(tlv.tag(), TlvTag::MessagePayload);
    assert_eq!(tlv.extract_raw_bytes(), Some(&[9u8][..]));
    let tlv = Tlv::new_custom(0xFFFF, Vec::new());
    assert_eq!(tlv.tag(), TlvTag::Other(0xFFFF));
    assert_eq!(tlv.value_length(), 0);
    assert_eq!(tlv.extract_raw_bytes(), Some(&[][..]));
}

#[test]
fn declared_length_is_exact_up_to_16_bits_and_wraps_beyond() {
    assert_eq!(Tlv::new_custom(0x1400, vec![0; 65_535]).value_length(), 65_535);
    assert_eq!(Tlv::new_custom(0x1400, vec![0; 65_536]).value_length(), 0);
    assert_eq!(Tlv::new_custom(0x1400, vec![0; 65_541]).value_length(), 5);
    let big = TlvValue::MessagePayload(AnyOctetString::new(vec![7; 70_000]));
    assert_eq!(Tlv::new(big.clone()).value_length(), (70_000 - 65_536) as u16);
    assert_eq!(Tlv::new(big.clone()).value(), Some(&big));
}

#[test]
fn custom_scalars_are_big_endian_and_fixed_width() {
    let tlv = Tlv::new_custom_u16(0x1401, 0x0102);
    assert_eq!(tlv.extract_raw_bytes(), Some(&[0x01u8, 0x02][..]));
    assert_eq!(tlv.value_length(), 2);
    let tlv = Tlv::new_custom_u16(0x1401, 5);
    assert_eq!(tlv.extract_raw_bytes(), Some(&[0u8, 5][..]));

    let tlv = Tlv::new_custom_u32(0x1402, 0x0102_0304);
    assert_eq!(tlv.extract_raw_bytes(), Some(&[1u8, 2, 3, 4][..]));
    assert_eq!(tlv.value_length(), 4);
    assert_eq!(tlv.tag(), TlvTag::Other(0x1402));

    let tlv = Tlv::new_custom_u64(0x1403, 0x0102_0304_0506_0708);
    assert_eq!(tlv.extract_raw_bytes(), Some(&[1u8, 2, 3, 4, 5, 6, 7, 8][..]));
    assert_eq!(tlv.value_length(), 8);
}

#[test]
fn custom_scalars_agree_with_the_standard_library() {
    for value in [0u64, 1, 0xFF, 0x1234, 0xFFFF, 0x12_3456, 0xFFFF_FFFF, 0x1_0000_0000, u64::MAX] {
        assert_eq!(
            Tlv::new_custom_u64(0x1400, value),
            Tlv::new_custom(0x1400, value.to_be_bytes().to_vec())
        );
        assert_eq!(
            Tlv::new_custom_u32(0x1400, value as u32),
            Tlv::new_custom(0x1400, (value as u32).to_be_bytes().to_vec())
        );
        assert_eq!(
            Tlv::new_custom_u16(0x1400, value as u16),
            Tlv::new_custom(0x1400, (value as u16).to_be_bytes().to_vec())
        );
    }
}

#[test]
fn scalars_round_trip() {
    for tag in [0u16, 0x1400, 0x3FFF, 0x0424, 0xFFFF] {
        for value in [0u16, 1, 255, 256, 0x1234, u16::MAX] {
            assert_eq!(Tlv::new_custom_u16(tag, value).extract_u16(), Some(value));
        }
        for value in [0u32, 1, 65_535, 65_536, 0xDEAD_BEEF, u32::MAX] {
            assert_eq!(Tlv::new_custom_u32(tag, value).extract_u32(), Some(value));
        }
        for value in [0u64, 1, 0xFFFF_FFFF, 0x1_0000_0000, 0x0102_0304_0506_0708, u64::MAX] {
            assert_eq!(Tlv::new_custom_u64(tag, value).extract_u64(), Some(value));
        }
    }
}

#[test]
fn every_u16_round_trips() {
    for value in 0..=u16::MAX {
        assert_eq!(Tlv::new_custom_u16(0x1400, value).extract_u16(), Some(value));
    }
}

#[test]
fn extract_reads_big_endian() {
    assert_eq!(Tlv::new_custom(0x1400, vec![0x12, 0x34]).extract_u16(), Some(0x1234));
    assert_eq!(
        Tlv::new_custom(0x1400, vec![0x12, 0x34, 0x56, 0x78]).extract_u32(),
        Some(0x1234_5678)
    );
    assert_eq!(
        Tlv::new_custom(0x1400, vec![0x12, 0x34, 0x56, 0x78, 0x9A, 0xBC, 0xDE, 0xF0])
            .extract_u64(),
        Some(0x1234_5678_9ABC_DEF0)
    );
    assert_eq!(Tlv::new_custom(0x1400, vec![0xFF, 0xFF]).extract_u16(), Some(u16::MAX));
    assert_eq!(Tlv::new_custom(0x1400, vec![0xFF; 4]).extract_u32(), Some(u32::MAX));
    assert_eq!(Tlv::new_custom(0x1400, vec![0xFF; 8]).extract_u64(), Some(u64::MAX));
}

#[test]
fn a_three_byte_payload_never_decodes_as_u16() {
    let tlv = Tlv::new_custom(0x1400, vec![1, 2, 3]);
    assert_eq!(tlv.extract_u16(), None);
}

#[test]
fn scalars_need_the_exact_width() {
    for length in 0..=9usize {
        let tlv = Tlv::new_custom(0x1400, vec![1; length]);
        assert_eq!(tlv.extract_u16().is_some(), length == 2);
        assert_eq!(tlv.extract_u32().is_some(), length == 4);
        assert_eq!(tlv.extract_u64().is_some(), length == 8);
    }
    assert_eq!(Tlv::new_custom_u32(0x1400, 1).extract_u16(), None);
    assert_eq!(Tlv::new_custom_u16(0x1400, 1).extract_u32(), None);
    assert_eq!(Tlv::new_custom_u64(0x1400, 1).extract_u32(), None);
    assert_eq!(Tlv::new_custom_u32(0x1400, 1).extract_u64(), None);
}

#[test]
fn custom_string_is_utf8_with_one_zero_byte() {
    let tlv = Tlv::new_custom_string(0x1404, "hi");
    assert_eq!(tlv.tag(), TlvTag::Other(0x1404));
    assert_eq!(tlv.extract_raw_bytes(), Some(&[b'h', b'i', 0][..]));
    assert_eq!(tlv.value_length(), 3);
    let tlv = Tlv::new_custom_string(0x1404, "");
    assert_eq!(tlv.extract_raw_bytes(), Some(&[0u8][..]));
    assert_eq!(tlv.value_length(), 1);
    let tlv = Tlv::new_custom_string(0x1404, "é€");
    assert_eq!(tlv.extract_raw_bytes(), Some(&[0xC3u8, 0xA9, 0xE2, 0x82, 0xAC, 0][..]));
    assert_eq!(tlv.value_length(), 6);
}

#[test]
fn strings_round_trip() {
    for text in ["", "a", "hello world", "grüße", "日本語", "🦀 crab", "line\nbreak"] {
        let tlv = Tlv::new_custom_string(0x1400, text);
        assert_eq!(tlv.extract_string(), Some(text.to_string()));
    }
}

#[test]
fn strings_with_zero_bytes_round_trip_too() {
    for text in ["a\0b", "\0", "tail\0", "\0\0"] {
        let tlv = Tlv::new_custom_string(0x1400, text);
        assert_eq!(tlv.extract_string(), Some(text.to_string()));
    }
}

#[test]
fn extract_string_takes_off_exactly_one_zero_byte() {
    assert_eq!(
        Tlv::new_custom(0x1400, b"abc\0".to_vec()).extract_string(),
        Some("abc".to_string())
    );
    assert_eq!(Tlv::new_custom(0x1400, b"abc".to_vec()).extract_string(), Some("abc".to_string()));
    assert_eq!(
        Tlv::new_custom(0x1400, b"abc\0\0".to_vec()).extract_string(),
        Some("abc\0".to_string())
    );
    assert_eq!(
        Tlv::new_custom(0x1400, b"a\0bc".to_vec()).extract_string(),
        Some("a\0bc".to_string())
    );
    assert_eq!(Tlv::new_custom(0x1400, vec![0]).extract_string(), Some(String::new()));
    assert_eq!(Tlv::new_custom(0x1400, Vec::new()).extract_string(), Some(String::new()));
}

#[test]
fn extract_string_refuses_malformed_utf8() {
    assert_eq!(Tlv::new_custom(0x1400, vec![0xFF, 0]).extract_string(), None);
    assert_eq!(Tlv::new_custom(0x1400, vec![0xFF]).extract_string(), None);
    assert_eq!(Tlv::new_custom(0x1400, vec![b'a', 0xC3]).extract_string(), None);
    assert_eq!(Tlv::new_custom(0x1400, vec![0xC3, 0]).extract_string(), None);
    assert_eq!(Tlv::new_custom(0x1400, vec![0xED, 0xA0, 0x80, 0]).extract_string(), None);
    assert_eq!(Tlv::new_custom(0x1400, vec![0xC0, 0x80]).extract_string(), None);
    assert_eq!(
        Tlv::new_custom(0x1400, vec![0xC3, 0xA9, 0]).extract_string(),
        Some("é".to_string())
    );
}

#[test]
fn from_parts_keeps_the_parts_as_given() {
    let flag = Tlv::from_parts(TlvTag::Other(0x130C), 0, None);
    assert_eq!(flag.tag(), TlvTag::Other(0x130C));
    assert_eq!(flag.value_length(), 0);
    assert_eq!(flag.value(), None);
    assert_eq!(flag.extract_raw_bytes(), None);
    assert_eq!(flag.extract_u16(), None);
    assert_eq!(flag.extract_string(), None);

    let odd = Tlv::from_parts(TlvTag::SourcePort, 9, Some(raw(0x1400, &[1, 2])));
    assert_eq!(odd.tag(), TlvTag::SourcePort);
    assert_eq!(odd.value_length(), 9);
    assert_eq!(odd.extract_u16(), Some(0x0102));

    let same = Tlv::from_parts(TlvTag::Other(0x1400), 2, Some(raw(0x1400, &[1, 2])));
    assert_eq!(same, Tlv::new_custom(0x1400, vec![1, 2]));
}

#[test]
fn octet_string_holds_its_bytes() {
    let octets = AnyOctetString::new(vec![1, 2, 3]);
    assert_eq!(octets.bytes(), &[1u8, 2, 3][..]);
    assert_eq!(octets.length(), 3);
    assert_eq!(AnyOctetString::new(Vec::new()).length(), 0);
}

#[test]
fn default_octet_string_is_empty() {
    assert_eq!(AnyOctetString::default(), AnyOctetString::new(Vec::new()));
    assert_eq!(AnyOctetString::default().bytes(), &[][..]);
}
