use bitsock::packet::Packet;
use bitsock::packet::PacketDecodeError;

fn round_trip(packet: Packet) {
    let bytes = packet.encode();
    assert_eq!(Packet::decode(bytes), Ok(packet));
}

#[test]
fn bytes_round_trip() {
    round_trip(Packet::Bytes(vec![0, 1, 2, 254, 255]));
    round_trip(Packet::Bytes(vec![7]));
}

#[test]
fn string_round_trip() {
    round_trip(Packet::String("Hello There!".to_string()));
    round_trip(Packet::String("gr\u{fc}\u{df}e, \u{4e16}\u{754c} \u{1f980}".to_string()));
}

#[test]
fn empty_bytes_round_trip() {
    assert_eq!(Packet::Bytes(vec![]).encode(), vec![1]);
    assert_eq!(Packet::decode(vec![1]), Ok(Packet::Bytes(vec![])));
    round_trip(Packet::Bytes(vec![]));
}

#[test]
fn empty_string_round_trip() {
    assert_eq!(Packet::String(String::new()).encode(), vec![2]);
    assert_eq!(Packet::decode(vec![2]), Ok(Packet::String(String::new())));
    round_trip(Packet::String(String::new()));
}

#[test]
fn signed_round_trip_at_the_bounds() {
    for v in [0, 1, -1, i8::MIN, i8::MAX] {
        round_trip(Packet::I8(v));
    }
    for v in [0, 1, -1, 255, 256, -256, i16::MIN, i16::MAX] {
        round_trip(Packet::I16(v));
    }
    for v in [0, 1, -1, 65_536, -65_536, i32::MIN, i32::MAX] {
        round_trip(Packet::I32(v));
    }
    for v in [0, 1, -1, 1 << 40, -(1 << 40), i64::MIN, i64::MAX] {
        round_trip(Packet::I64(v));
    }
}

#[test]
fn unsigned_round_trip_at_the_bounds() {
    for v in [0, 1, 127, 128, u8::MAX] {
        round_trip(Packet::U8(v));
    }
    for v in [0, 1, 255, 256, u16::MAX] {
        round_trip(Packet::U16(v));
    }
    for v in [0, 1, 65_535, 65_536, u32::MAX] {
        round_trip(Packet::U32(v));
    }
    for v in [0, 1, 1 << 32, u64::MAX] {
        round_trip(Packet::U64(v));
    }
}

#[test]
fn single_precision_round_trip_by_bits() {
    for x in [0.0f32, -0.0, 1.5, f32::MIN, f32::MAX, f32::INFINITY, f32::NEG_INFINITY, f32::NAN] {
        let sent = Packet::F32(x.to_bits());
        match Packet::decode(sent.encode()) {
            Ok(Packet::F32(bits)) => {
                assert_eq!(bits, x.to_bits());
                assert_eq!(f32::from_bits(bits).to_bits(), x.to_bits());
            }
            other => panic!("{:?}", other),
        }
    }
}

#[test]
fn double_precision_round_trip_by_bits() {
    for x in [0.0f64, -0.0, 1.5, f64::MIN, f64::MAX, f64::INFINITY, f64::NEG_INFINITY, f64::NAN] {
        let sent = Packet::F64(x.to_bits());
        match Packet::decode(sent.encode()) {
            Ok(Packet::F64(bits)) => {
                assert_eq!(bits, x.to_bits());
                assert_eq!(f64::from_bits(bits).to_bits(), x.to_bits());
            }
            other => panic!("{:?}", other),
        }
    }
}

#[test]
fn identified_round_trip() {
    round_trip(Packet::Identified(0, vec![]));
    round_trip(Packet::Identified(7, vec![1, 2, 3]));
    round_trip(Packet::Identified(u32::MAX, vec![0, 0, 255]));
}

#[test]
fn encoding_is_tag_then_payload() {
    assert_eq!(Packet::Bytes(vec![9, 8, 7]).encode(), vec![1, 9, 8, 7]);
    assert_eq!(Packet::String("hi".to_string()).encode(), vec![2, b'h', b'i']);
    assert_eq!(Packet::String("\u{e9}".to_string()).encode(), vec![2, 0xc3, 0xa9]);
    assert_eq!(Packet::I8(-1).encode(), vec![3, 0xff]);
    assert_eq!(Packet::I16(-2).encode(), vec![4, 0xfe, 0xff]);
    assert_eq!(Packet::I32(5).encode(), vec![5, 5, 0, 0, 0]);
    assert_eq!(Packet::I64(-1).encode(), vec![6, 255, 255, 255, 255, 255, 255, 255, 255]);
    assert_eq!(Packet::F32(1.0f32.to_bits()).encode(), vec![7, 0, 0, 0x80, 0x3f]);
    assert_eq!(Packet::F64(1.0f64.to_bits()).encode(), vec![8, 0, 0, 0, 0, 0, 0, 0xf0, 0x3f]);
    assert_eq!(Packet::U8(200).encode(), vec![9, 200]);
    assert_eq!(Packet::U16(0x0102).encode(), vec![10, 2, 1]);
    assert_eq!(Packet::U32(0x0102_0304).encode(), vec![11, 4, 3, 2, 1]);
    assert_eq!(
        Packet::U64(0x0102_0304_0506_0708).encode(),
        vec![12, 8, 7, 6, 5, 4, 3, 2, 1]
    );
    assert_eq!(Packet::Identified(7, vec![1, 2]).encode(), vec![13, 7, 0, 0, 0, 1, 2]);
}

#[test]
fn invalid_is_written_as_nothing() {
    assert_eq!(Packet::Invalid.encode(), Vec::<u8>::new());
}

#[test]
fn decoding_reads_little_endian() {
    assert_eq!(Packet::decode(vec![3, 0x80]), Ok(Packet::I8(-128)));
    assert_eq!(Packet::decode(vec![4, 0x00, 0x80]), Ok(Packet::I16(i16::MIN)));
    assert_eq!(Packet::decode(vec![5, 1, 1, 0, 0]), Ok(Packet::I32(257)));
    assert_eq!(Packet::decode(vec![6, 0, 0, 0, 0, 0, 0, 0, 0x80]), Ok(Packet::I64(i64::MIN)));
    assert_eq!(Packet::decode(vec![7, 0, 0, 0x80, 0x3f]), Ok(Packet::F32(0x3f80_0000)));
    assert_eq!(
        Packet::decode(vec![8, 0, 0, 0, 0, 0, 0, 0xf0, 0x3f]),
        Ok(Packet::F64(0x3ff0_0000_0000_0000))
    );
    assert_eq!(Packet::decode(vec![9, 200]), Ok(Packet::U8(200)));
    assert_eq!(Packet::decode(vec![10, 2, 1]), Ok(Packet::U16(0x0102)));
    assert_eq!(Packet::decode(vec![11, 4, 3, 2, 1]), Ok(Packet::U32(0x0102_0304)));
    assert_eq!(
        Packet::decode(vec![12, 8, 7, 6, 5, 4, 3, 2, 1]),
        Ok(Packet::U64(0x0102_0304_0506_0708))
    );
    assert_eq!(
        Packet::decode(vec![13, 7, 0, 0, 0, 1, 2]),
        Ok(Packet::Identified(7, vec![1, 2]))
    );
}

#[test]
fn a_number_ignores_what_follows_it() {
    assert_eq!(Packet::decode(vec![10, 2, 1, 99, 98]), Ok(Packet::U16(0x0102)));
    assert_eq!(Packet::decode(vec![3, 0xff, 1]), Ok(Packet::I8(-1)));
}

#[test]
fn truncated_numbers_are_errors() {
    let widths: [(u8, usize); 10] =
        [(3, 1), (4, 2), (5, 4), (6, 8), (7, 4), (8, 8), (9, 1), (10, 2), (11, 4), (12, 8)];
    for (tag, width) in widths {
        for given in 0..width {
            let mut bytes = vec![tag];
            bytes.extend(std::iter::repeat(0xab).take(given));
            assert_eq!(Packet::decode(bytes), Err(PacketDecodeError));
        }
        let mut bytes = vec![tag];
        bytes.extend(std::iter::repeat(0xab).take(width));
        assert!(Packet::decode(bytes).is_ok());
    }
}

#[test]
fn truncated_identifier_is_an_error() {
    assert_eq!(Packet::decode(vec![13]), Err(PacketDecodeError));
    assert_eq!(Packet::decode(vec![13, 1, 2, 3]), Err(PacketDecodeError));
    assert_eq!(Packet::decode(vec![13, 1, 0, 0, 0]), Ok(Packet::Identified(1, vec![])));
}

#[test]
fn empty_buffer_is_an_error() {
    assert_eq!(Packet::decode(vec![]), Err(PacketDecodeError));
}

#[test]
fn unknown_tag_is_invalid() {
    assert_eq!(Packet::decode(vec![0]), Ok(Packet::Invalid));
    assert_eq!(Packet::decode(vec![14]), Ok(Packet::Invalid));
    assert_eq!(Packet::decode(vec![255, 1, 2, 3]), Ok(Packet::Invalid));
    for tag in 14..=255u8 {
        assert_eq!(Packet::decode(vec![tag, 0, 0]), Ok(Packet::Invalid));
    }
}

#[test]
fn text_that_is_no_utf8_is_an_error() {
    assert_eq!(Packet::decode(vec![2, 0xff]), Err(PacketDecodeError));
    assert_eq!(Packet::decode(vec![2, 0xc3]), Err(PacketDecodeError));
    assert_eq!(Packet::decode(vec![2, 0xed, 0xa0, 0x80]), Err(PacketDecodeError));
    assert_eq!(Packet::decode(vec![2, 0xc3, 0xa9]), Ok(Packet::String("\u{e9}".to_string())));
}

#[test]
fn numbers_are_written_as_std_writes_them() {
    assert_eq!(Packet::U16(0xbeef).encode()[1..], 0xbeefu16.to_le_bytes());
    assert_eq!(Packet::I32(-123_456).encode()[1..], (-123_456i32).to_le_bytes());
    assert_eq!(Packet::U64(u64::MAX - 1).encode()[1..], (u64::MAX - 1).to_le_bytes());
    assert_eq!(Packet::I64(i64::MIN + 1).encode()[1..], (i64::MIN + 1).to_le_bytes());
    assert_eq!(Packet::F32(2.5f32.to_bits()).encode()[1..], 2.5f32.to_le_bytes());
    assert_eq!(Packet::F64((-2.5f64).to_bits()).encode()[1..], (-2.5f64).to_le_bytes());
}

#[test]
fn packets_are_reachable_from_the_root() {
    let packet: bitsock::Packet = bitsock::Packet::U8(1);
    assert_eq!(bitsock::Packet::decode(packet.encode()), Ok(Packet::U8(1)));
    let error: bitsock::PacketDecodeError = PacketDecodeError;
    assert_eq!(bitsock::Packet::decode(vec![]), Err(error));
}
