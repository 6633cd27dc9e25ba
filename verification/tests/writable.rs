use azalea_protocol::error::WriteError;
use azalea_protocol::nbt::EncodedTag;
use azalea_protocol::resource_location::ResourceLocation;
use azalea_protocol::writable::{Writable, MAX_STRING_LENGTH};

#[test]
fn write_byte_appends_one_byte() {
    let mut buf = Vec::new();
    buf.write_byte(0x00).unwrap();
    buf.write_byte(0x7f).unwrap();
    buf.write_byte(0xff).unwrap();
    assert_eq!(buf, vec![0x00, 0x7f, 0xff]);
}

#[test]
fn write_bytes_appends_without_framing() {
    let mut buf = vec![9];
    buf.write_bytes(&[1, 2, 3]).unwrap();
    buf.write_bytes(&[]).unwrap();
    assert_eq!(buf, vec![9, 1, 2, 3]);
}

#[test]
fn write_boolean_true_and_false() {
    let mut buf = Vec::new();
    buf.write_boolean(true).unwrap();
    assert_eq!(buf, vec![0x01]);
    let mut buf = Vec::new();
    buf.write_boolean(false).unwrap();
    assert_eq!(buf, vec![0x00]);
}

#[test]
fn write_short_is_big_endian() {
    let mut buf = Vec::new();
    buf.write_short(193).unwrap();
    buf.write_short(-132).unwrap();
    assert_eq!(buf, vec![0x00, 0xc1, 0xff, 0x7c]);
    let mut buf = Vec::new();
    buf.write_short(0x1234).unwrap();
    buf.write_short(i16::MIN).unwrap();
    buf.write_short(i16::MAX).unwrap();
    buf.write_short(0).unwrap();
    assert_eq!(buf, vec![0x12, 0x34, 0x80, 0x00, 0x7f, 0xff, 0x00, 0x00]);
}

#[test]
fn write_int_is_big_endian() {
    let mut buf = Vec::new();
    buf.write_int(0x12345678).unwrap();
    assert_eq!(buf, vec![0x12, 0x34, 0x56, 0x78]);
    let mut buf = Vec::new();
    buf.write_int(-2).unwrap();
    buf.write_int(1).unwrap();
    buf.write_int(i32::MIN).unwrap();
    assert_eq!(
        buf,
        vec![0xff, 0xff, 0xff, 0xfe, 0x00, 0x00, 0x00, 0x01, 0x80, 0x00, 0x00, 0x00]
    );
}

#[test]
fn write_long_is_big_endian() {
    let mut buf = Vec::new();
    buf.write_long(0x0123456789abcdef).unwrap();
    assert_eq!(buf, vec![0x01, 0x23, 0x45, 0x67, 0x89, 0xab, 0xcd, 0xef]);
    let mut buf = Vec::new();
    buf.write_long(-2).unwrap();
    assert_eq!(buf, vec![0xff, 0xff, 0xff, 0xff, 0xff, 0xff, 0xff, 0xfe]);
    let mut buf = Vec::new();
    buf.write_long(1).unwrap();
    assert_eq!(buf, vec![0, 0, 0, 0, 0, 0, 0, 1]);
}

#[test]
fn write_utf_of_one_letter() {
    let mut buf = Vec::new();
    buf.write_utf("A").unwrap();
    assert_eq!(buf, vec![0x01, 0x41]);
}

#[test]
fn write_utf_counts_bytes_not_characters() {
    let mut buf = Vec::new();
    buf.write_utf("h\u{e9}llo").unwrap();
    assert_eq!(buf, vec![0x06, b'h', 0xc3, 0xa9, b'l', b'l', b'o']);
    let mut buf = Vec::new();
    buf.write_utf("\u{1f600}").unwrap();
    assert_eq!(buf, vec![0x04, 0xf0, 0x9f, 0x98, 0x80]);
}

#[test]
fn write_utf_of_the_empty_string() {
    let mut buf = Vec::new();
    buf.write_utf("").unwrap();
    assert_eq!(buf, vec![0x00]);
}

#[test]
fn write_utf_with_a_two_byte_length() {
    let text = "x".repeat(200);
    let mut buf = Vec::new();
    buf.write_utf(&text).unwrap();
    assert_eq!(buf.len(), 202);
    assert_eq!(&buf[..2], &[0xc8, 0x01]);
    assert!(buf[2..].iter().all(|b| *b == b'x'));
}

#[test]
fn write_utf_with_len_at_the_limit() {
    let mut buf = Vec::new();
    buf.write_utf_with_len("abc", 3).unwrap();
    assert_eq!(buf, vec![0x03, b'a', b'b', b'c']);
}

#[test]
fn write_utf_with_len_over_the_limit() {
    let mut buf = vec![0x55];
    let r = buf.write_utf_with_len("abcd", 3);
    assert_eq!(r, Err(WriteError::StringTooLong { len: 4, max: 3 }));
    assert_eq!(buf, vec![0x55]);
}

#[test]
fn write_utf_with_len_limit_is_in_bytes() {
    let mut buf = Vec::new();
    let r = buf.write_utf_with_len("\u{e9}\u{e9}", 3);
    assert_eq!(r, Err(WriteError::StringTooLong { len: 4, max: 3 }));
    assert!(buf.is_empty());
    assert_eq!(buf.write_utf_with_len("\u{e9}\u{e9}", 4), Ok(()));
    assert_eq!(buf, vec![0x04, 0xc3, 0xa9, 0xc3, 0xa9]);
}

#[test]
fn write_utf_with_len_zero() {
    let mut buf = Vec::new();
    assert_eq!(buf.write_utf_with_len("", 0), Ok(()));
    assert_eq!(buf, vec![0x00]);
    assert_eq!(
        buf.write_utf_with_len("a", 0),
        Err(WriteError::StringTooLong { len: 1, max: 0 })
    );
    assert_eq!(buf, vec![0x00]);
}

#[test]
fn write_utf_enforces_the_protocol_limit() {
    assert_eq!(MAX_STRING_LENGTH, 32767);
    let longest = "a".repeat(32767);
    let mut buf = Vec::new();
    buf.write_utf(&longest).unwrap();
    assert_eq!(buf.len(), 3 + 32767);
    assert_eq!(&buf[..3], &[0xff, 0xff, 0x01]);

    let too_long = "a".repeat(32768);
    let mut buf = vec![1, 2, 3];
    assert_eq!(
        buf.write_utf(&too_long),
        Err(WriteError::StringTooLong { len: 32768, max: 32767 })
    );
    assert_eq!(buf, vec![1, 2, 3]);
}

#[test]
fn write_byte_array_is_length_prefixed() {
    let mut buf = Vec::new();
    buf.write_byte_array(&[0xde, 0xad, 0xbe, 0xef]).unwrap();
    assert_eq!(buf, vec![0x04, 0xde, 0xad, 0xbe, 0xef]);
    let mut buf = Vec::new();
    buf.write_byte_array(&[]).unwrap();
    assert_eq!(buf, vec![0x00]);
    let mut buf = Vec::new();
    buf.write_byte_array(&[7u8; 130]).unwrap();
    assert_eq!(&buf[..2], &[0x82, 0x01]);
    assert_eq!(buf.len(), 132);
}

#[test]
fn write_resource_location_writes_the_canonical_form() {
    let location = ResourceLocation {
        namespace: "minecraft".to_string(),
        path: "brand".to_string(),
    };
    assert_eq!(location.to_string(), "minecraft:brand");
    let mut buf = Vec::new();
    buf.write_resource_location(&location).unwrap();
    let mut expected = vec![15u8];
    expected.extend_from_slice(b"minecraft:brand");
    assert_eq!(buf, expected);
}

#[test]
fn write_resource_location_with_empty_parts() {
    let location = ResourceLocation { namespace: String::new(), path: String::new() };
    assert_eq!(location.to_string(), ":");
    let mut buf = Vec::new();
    buf.write_resource_location(&location).unwrap();
    assert_eq!(buf, vec![0x01, b':']);
}

#[test]
fn write_resource_location_over_the_limit() {
    let location = ResourceLocation {
        namespace: "a".repeat(20000),
        path: "b".repeat(20000),
    };
    let mut buf = vec![4];
    assert_eq!(
        buf.write_resource_location(&location),
        Err(WriteError::StringTooLong { len: 40001, max: 32767 })
    );
    assert_eq!(buf, vec![4]);
}

#[test]
fn write_nbt_appends_the_codec_bytes() {
    let mut buf = vec![0x01];
    buf.write_nbt(&EncodedTag::Bytes(vec![0x0a, 0x00, 0x00, 0x00])).unwrap();
    assert_eq!(buf, vec![0x01, 0x0a, 0x00, 0x00, 0x00]);
}

#[test]
fn write_nbt_keeps_the_codec_message() {
    let mut buf = vec![0x01];
    let r = buf.write_nbt(&EncodedTag::Failed("Invalid tag".to_string()));
    assert_eq!(r, Err(WriteError::Io { message: "Invalid tag".to_string() }));
    assert_eq!(buf, vec![0x01]);
}

#[test]
fn write_list_of_varints() {
    let mut buf = Vec::new();
    buf.write_list(&[7, 9], |buf, n| buf.write_varint(*n)).unwrap();
    assert_eq!(buf, vec![0x02, 0x07, 0x09]);
}

#[test]
fn write_list_of_nothing() {
    let mut buf = Vec::new();
    let items: [i32; 0] = [];
    buf.write_list(&items, |buf, n| buf.write_varint(*n)).unwrap();
    assert_eq!(buf, vec![0x00]);
}

#[test]
fn write_list_keeps_the_order_of_items() {
    let mut buf = vec![0xee];
    buf.write_list(&[300, 0, -1], |buf, n| buf.write_varint(*n)).unwrap();
    assert_eq!(
        buf,
        vec![0xee, 0x03, 0xac, 0x02, 0x00, 0xff, 0xff, 0xff, 0xff, 0x0f]
    );
}

#[test]
fn write_list_of_strings() {
    let mut buf = Vec::new();
    buf.write_list(&["a", "bc"], |buf, s| buf.write_utf(s)).unwrap();
    assert_eq!(buf, vec![0x02, 0x01, b'a', 0x02, b'b', b'c']);
}

#[test]
fn write_list_stops_at_the_first_failure() {
    let mut buf = Vec::new();
    let r = buf.write_list(&["a", "toolong", "b"], |buf, s| buf.write_utf_with_len(s, 2));
    assert_eq!(r, Err(WriteError::StringTooLong { len: 7, max: 2 }));
    assert_eq!(buf, vec![0x03, 0x01, b'a']);
}

#[test]
fn write_list_nested_in_a_list() {
    let lists = [vec![1, 2], vec![], vec![3]];
    let mut buf = Vec::new();
    buf.write_list(&lists, |buf, list| buf.write_int_id_list(list)).unwrap();
    assert_eq!(buf, vec![0x03, 0x02, 0x01, 0x02, 0x00, 0x01, 0x03]);
}

#[test]
fn write_int_id_list_is_a_list_of_varints() {
    let mut buf = Vec::new();
    buf.write_int_id_list(&vec![7, 9]).unwrap();
    assert_eq!(buf, vec![0x02, 0x07, 0x09]);
    let mut buf = Vec::new();
    buf.write_int_id_list(&vec![]).unwrap();
    assert_eq!(buf, vec![0x00]);
    let mut buf = Vec::new();
    buf.write_int_id_list(&vec![128, -1]).unwrap();
    assert_eq!(buf, vec![0x02, 0x80, 0x01, 0xff, 0xff, 0xff, 0xff, 0x0f]);
}

#[test]
fn write_map_of_one_pair() {
    let mut buf = Vec::new();
    buf.write_map(
        vec![(1, "a")],
        |buf, k| buf.write_varint(k),
        |buf, v| buf.write_utf(v),
    )
    .unwrap();
    assert_eq!(buf, vec![0x01, 0x01, 0x01, b'a']);
}

#[test]
fn write_map_keeps_the_order_of_pairs() {
    let mut buf = Vec::new();
    buf.write_map(
        vec![(2, true), (1, false), (2, true)],
        |buf, k| buf.write_varint(k),
        |buf, v| buf.write_boolean(v),
    )
    .unwrap();
    assert_eq!(buf, vec![0x03, 0x02, 0x01, 0x01, 0x00, 0x02, 0x01]);
}

#[test]
fn write_map_of_nothing() {
    let mut buf = Vec::new();
    let pairs: Vec<(i32, i32)> = Vec::new();
    buf.write_map(pairs, |buf, k| buf.write_varint(k), |buf, v| buf.write_int(v)).unwrap();
    assert_eq!(buf, vec![0x00]);
}

#[test]
fn write_map_stops_at_a_failing_value() {
    let mut buf = Vec::new();
    let r = buf.write_map(
        vec![(1, "ok"), (2, "too long"), (3, "ok")],
        |buf, k| buf.write_varint(k),
        |buf, v| buf.write_utf_with_len(v, 2),
    );
    assert_eq!(r, Err(WriteError::StringTooLong { len: 8, max: 2 }));
    assert_eq!(buf, vec![0x03, 0x01, 0x02, b'o', b'k', 0x02]);
}

#[test]
fn write_map_stops_at_a_failing_key() {
    let mut buf = Vec::new();
    let r = buf.write_map(
        vec![("k", 1), ("key", 2)],
        |buf, k| buf.write_utf_with_len(k, 1),
        |buf, v| buf.write_varint(v),
    );
    assert_eq!(r, Err(WriteError::StringTooLong { len: 3, max: 1 }));
    assert_eq!(buf, vec![0x02, 0x01, b'k', 0x01]);
}

#[test]
fn writes_never_touch_earlier_bytes() {
    let mut buf = vec![0xca, 0xfe];
    buf.write_byte(1).unwrap();
    buf.write_short(2).unwrap();
    buf.write_int(3).unwrap();
    buf.write_long(4).unwrap();
    buf.write_varint(5).unwrap();
    buf.write_boolean(true).unwrap();
    buf.write_utf("6").unwrap();
    buf.write_byte_array(&[7]).unwrap();
    buf.write_bytes(&[8]).unwrap();
    assert_eq!(
        buf,
        vec![
            0xca, 0xfe, 1, 0, 2, 0, 0, 0, 3, 0, 0, 0, 0, 0, 0, 0, 4, 5, 1, 1, b'6', 1, 7, 8
        ]
    );
}
