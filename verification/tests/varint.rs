use azalea_protocol::varint::{read_varint, MAX_VARINT_BYTES};
use azalea_protocol::writable::Writable;

fn varint(value: i32) -> Vec<u8> {
    let mut buf = Vec::new();
    buf.write_varint(value).unwrap();
    buf
}

#[test]
fn varint_zero_is_one_zero_byte() {
    assert_eq!(varint(0), vec![0x00]);
}

#[test]
fn varint_known_encodings() {
    assert_eq!(varint(1), vec![0x01]);
    assert_eq!(varint(2), vec![0x02]);
    assert_eq!(varint(127), vec![0x7f]);
    assert_eq!(varint(128), vec![0x80, 0x01]);
    assert_eq!(varint(255), vec![0xff, 0x01]);
    assert_eq!(varint(300), vec![0xac, 0x02]);
    assert_eq!(varint(25565), vec![0xdd, 0xc7, 0x01]);
    assert_eq!(varint(2097151), vec![0xff, 0xff, 0x7f]);
    assert_eq!(varint(i32::MAX), vec![0xff, 0xff, 0xff, 0xff, 0x07]);
    assert_eq!(varint(-1), vec![0xff, 0xff, 0xff, 0xff, 0x0f]);
    assert_eq!(varint(i32::MIN), vec![0x80, 0x80, 0x80, 0x80, 0x08]);
}

#[test]
fn varint_length_by_range() {
    for value in 0..=127 {
        assert_eq!(varint(value).len(), 1);
    }
    assert_eq!(varint(128).len(), 2);
    assert_eq!(varint(16383).len(), 2);
    assert_eq!(varint(16384).len(), 3);
    assert_eq!(varint(2097151).len(), 3);
    assert_eq!(varint(2097152).len(), 4);
    assert_eq!(varint(268435455).len(), 4);
    assert_eq!(varint(268435456).len(), 5);
    for value in [-1, -2, -128, -129, -65536, i32::MIN] {
        assert_eq!(varint(value).len(), MAX_VARINT_BYTES);
    }
}

#[test]
fn varint_continuation_flags() {
    for value in [0, 1, 127, 128, 300, 70000, i32::MAX, -1, i32::MIN] {
        let bytes = varint(value);
        let (last, rest) = bytes.split_last().unwrap();
        assert!(last & 0x80 == 0);
        for b in rest {
            assert!(b & 0x80 != 0);
        }
    }
}

#[test]
fn varint_round_trip() {
    let values = [
        0,
        1,
        2,
        127,
        128,
        255,
        300,
        16383,
        16384,
        25565,
        2097151,
        2097152,
        268435455,
        268435456,
        i32::MAX,
        -1,
        -2,
        -128,
        -300,
        -2147483647,
        i32::MIN,
    ];
    for value in values {
        let bytes = varint(value);
        assert_eq!(read_varint(&bytes), Some((value, bytes.len())));
    }
}

#[test]
fn varint_read_stops_at_its_end() {
    let mut buf = varint(300);
    buf.extend_from_slice(&[0xff, 0x01, 0x02]);
    assert_eq!(read_varint(&buf), Some((300, 2)));
    let mut buf = varint(-1);
    buf.push(0x7f);
    assert_eq!(read_varint(&buf), Some((-1, 5)));
}

#[test]
fn varint_read_of_incomplete_input() {
    assert_eq!(read_varint(&[]), None);
    assert_eq!(read_varint(&[0x80]), None);
    assert_eq!(read_varint(&[0xff, 0xff, 0xff, 0xff]), None);
}

#[test]
fn varint_read_gives_up_after_five_bytes() {
    assert_eq!(read_varint(&[0x80, 0x80, 0x80, 0x80, 0x80, 0x00]), None);
    assert_eq!(read_varint(&[0xff, 0xff, 0xff, 0xff, 0xff, 0x01]), None);
}

#[test]
fn varint_read_drops_bits_beyond_the_32nd() {
    assert_eq!(read_varint(&[0xff, 0xff, 0xff, 0xff, 0x7f]), Some((-1, 5)));
    assert_eq!(read_varint(&[0x80, 0x80, 0x80, 0x80, 0x10]), Some((0, 5)));
}

#[test]
fn varint_read_accepts_padded_forms() {
    assert_eq!(read_varint(&[0x80, 0x00]), Some((0, 2)));
    assert_eq!(read_varint(&[0x81, 0x80, 0x00]), Some((1, 3)));
}

#[test]
fn varint_appends_to_what_is_there() {
    let mut buf = vec![0xaa, 0xbb];
    buf.write_varint(300).unwrap();
    assert_eq!(buf, vec![0xaa, 0xbb, 0xac, 0x02]);
    buf.write_varint(0).unwrap();
    assert_eq!(buf, vec![0xaa, 0xbb, 0xac, 0x02, 0x00]);
}
