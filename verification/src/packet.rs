//! The packet, and its encoding as bytes.
//!
//! An encoded packet is one tag byte, which names the variant, and then the
//! payload. Nothing tells how long the payload is: it is all that follows.
//!
//! | tag | variant      | payload                                   |
//! |-----|--------------|-------------------------------------------|
//! | 1   | `Bytes`      | the bytes                                 |
//! | 2   | `String`     | the text in UTF-8                         |
//! | 3   | `I8`         | 1 byte, two's complement                  |
//! | 4   | `I16`        | 2 bytes, little-endian, two's complement  |
//! | 5   | `I32`        | 4 bytes, little-endian, two's complement  |
//! | 6   | `I64`        | 8 bytes, little-endian, two's complement  |
//! | 7   | `F32`        | the 4 bytes of the bit pattern            |
//! | 8   | `F64`        | the 8 bytes of the bit pattern            |
//! | 9   | `U8`         | 1 byte                                    |
//! | 10  | `U16`        | 2 bytes, little-endian                    |
//! | 11  | `U32`        | 4 bytes, little-endian                    |
//! | 12  | `U64`        | 8 bytes, little-endian                    |
//! | 13  | `Identified` | the identifier as for `U32`, then the bytes |
//!
//! Any other tag reads as `Invalid`, which itself is written as no bytes at
//! all.

use vstd::prelude::*;
use vstd::slice::slice_subrange;
use vstd::slice::slice_to_vec;
use vstd::utf8::decode_utf8;
use vstd::utf8::encode_utf8;
use vstd::utf8::valid_utf8;
use crate::endian::le_bytes;
use crate::endian::le_value;
use crate::endian::to_signed;
use crate::endian::to_unsigned;

verus! {

/// Bytes that are no packet.
#[derive(Debug, Clone, Copy, PartialEq, Eq, Structural)]
pub struct PacketDecodeError;

/// A message between two peers.
///
/// A floating-point number travels as its IEEE-754 bit pattern, and `F32` and
/// `F64` hold that pattern: two such packets are equal when their bits are.
#[derive(Debug, Clone, PartialEq, Eq)]
pub enum Packet {
    /// What bytes with an unknown tag read as. It is never sent.
    Invalid,
    /// Raw bytes.
    Bytes(Vec<u8>),
    /// Text.
    String(String),
    I8(i8),
    I16(i16),
    I32(i32),
    I64(i64),
    /// The bit pattern of a single-precision number.
    F32(u32),
    /// The bit pattern of a double-precision number.
    F64(u64),
    U8(u8),
    U16(u16),
    U32(u32),
    U64(u64),
    /// Raw bytes under an identifier that says what they are.
    Identified(u32, Vec<u8>),
}

/// A packet as a mathematical value.
pub enum PacketView {
    Invalid,
    Bytes(Seq<u8>),
    String(Seq<char>),
    I8(i8),
    I16(i16),
    I32(i32),
    I64(i64),
    F32(u32),
    F64(u64),
    U8(u8),
    U16(u16),
    U32(u32),
    U64(u64),
    Identified(u32, Seq<u8>),
}

impl View for Packet {
    type V = PacketView;

    open spec fn view(&self) -> PacketView {
        match *self {
            Packet::Invalid => PacketView::Invalid,
            Packet::Bytes(data) => PacketView::Bytes(data@),
            Packet::String(text) => PacketView::String(text@),
            Packet::I8(v) => PacketView::I8(v),
            Packet::I16(v) => PacketView::I16(v),
            Packet::I32(v) => PacketView::I32(v),
            Packet::I64(v) => PacketView::I64(v),
            Packet::F32(bits) => PacketView::F32(bits),
            Packet::F64(bits) => PacketView::F64(bits),
            Packet::U8(v) => PacketView::U8(v),
            Packet::U16(v) => PacketView::U16(v),
            Packet::U32(v) => PacketView::U32(v),
            Packet::U64(v) => PacketView::U64(v),
            Packet::Identified(id, data) => PacketView::Identified(id, data@),
        }
    }
}

/// The bytes that a packet is sent as.
pub open spec fn encoding(packet: PacketView) -> Seq<u8> {
    match packet {
        PacketView::Invalid => Seq::empty(),
        PacketView::Bytes(data) => seq![1u8] + data,
        PacketView::String(text) => seq![2u8] + encode_utf8(text),
        PacketView::I8(v) => seq![3u8] + le_bytes(to_unsigned(v as int, 1), 1),
        PacketView::I16(v) => seq![4u8] + le_bytes(to_unsigned(v as int, 2), 2),
        PacketView::I32(v) => seq![5u8] + le_bytes(to_unsigned(v as int, 4), 4),
        PacketView::I64(v) => seq![6u8] + le_bytes(to_unsigned(v as int, 8), 8),
        PacketView::F32(bits) => seq![7u8] + le_bytes(bits as nat, 4),
        PacketView::F64(bits) => seq![8u8] + le_bytes(bits as nat, 8),
        PacketView::U8(v) => seq![9u8] + le_bytes(v as nat, 1),
        PacketView::U16(v) => seq![10u8] + le_bytes(v as nat, 2),
        PacketView::U32(v) => seq![11u8] + le_bytes(v as nat, 4),
        PacketView::U64(v) => seq![12u8] + le_bytes(v as nat, 8),
        PacketView::Identified(id, data) => seq![13u8] + le_bytes(id as nat, 4) + data,
    }
}

/// How many payload bytes the variant under `tag` needs at least.
pub open spec fn min_payload(tag: u8) -> nat {
    if tag == 3 || tag == 9 {
        1
    } else if tag == 4 || tag == 10 {
        2
    } else if tag == 5 || tag == 7 || tag == 11 || tag == 13 {
        4
    } else if tag == 6 || tag == 8 || tag == 12 {
        8
    } else {
        0
    }
}

/// The number at the start of a payload: what its first `width` bytes stand
/// for.
pub open spec fn leading(payload: Seq<u8>, width: nat) -> nat {
    le_value(payload.subrange(0, width as int))
}

/// The packet that `bytes` are, if they are one.
///
/// No bytes at all are none. Under a known tag, a payload that is too short
/// for its variant, or text that is no UTF-8, is none. Under any other tag the
/// bytes are the packet `Invalid`.
pub open spec fn parse(bytes: Seq<u8>) -> Option<PacketView> {
    if bytes.len() == 0 {
        None
    } else {
        let tag = bytes[0];
        let payload = bytes.subrange(1, bytes.len() as int);
        if payload.len() < min_payload(tag) {
            None
        } else {
            match tag {
                1u8 => Some(PacketView::Bytes(payload)),
                2u8 => if valid_utf8(payload) {
                    Some(PacketView::String(decode_utf8(payload)))
                } else {
                    None
                },
                3u8 => Some(PacketView::I8(to_signed(leading(payload, 1), 1) as i8)),
                4u8 => Some(PacketView::I16(to_signed(leading(payload, 2), 2) as i16)),
                5u8 => Some(PacketView::I32(to_signed(leading(payload, 4), 4) as i32)),
                6u8 => Some(PacketView::I64(to_signed(leading(payload, 8), 8) as i64)),
                7u8 => Some(PacketView::F32(leading(payload, 4) as u32)),
                8u8 => Some(PacketView::F64(leading(payload, 8) as u64)),
                9u8 => Some(PacketView::U8(leading(payload, 1) as u8)),
                10u8 => Some(PacketView::U16(leading(payload, 2) as u16)),
                11u8 => Some(PacketView::U32(leading(payload, 4) as u32)),
                12u8 => Some(PacketView::U64(leading(payload, 8) as u64)),
                13u8 => Some(
                    PacketView::Identified(
                        leading(payload, 4) as u32,
                        payload.subrange(4, payload.len() as int),
                    ),
                ),
                _ => Some(PacketView::Invalid),
            }
        }
    }
}

/// The error of std's `String::from_utf8`, carried through unread.
#[verifier::external_type_specification]
#[verifier::external_body]
pub struct ExFromUtf8Error(std::string::FromUtf8Error);

/// std's `String::from_utf8`: it is believed to succeed exactly on valid
/// UTF-8, and then to give the text whose UTF-8 bytes are `vec`.
pub assume_specification[ std::string::String::from_utf8 ](vec: std::vec::Vec<u8>) -> (r: Result<
    std::string::String,
    std::string::FromUtf8Error,
>)
    ensures
        r is Ok <==> valid_utf8(vec@),
        r matches Ok(text) ==> encode_utf8(text@) == vec@,
;

impl Packet {
    /// The bytes to send this packet as.
    pub fn encode(&self) -> (out: Vec<u8>)
        ensures
            out@ == encoding(self@),
    {
        let mut out: Vec<u8> = Vec::new();
        match self {
            Packet::Invalid => {},
            Packet::Bytes(data) => {
                out.push(1);
                out.extend_from_slice(data.as_slice());
            },
            Packet::String(text) => {
                out.push(2);
                out.extend_from_slice(text.as_str().as_bytes());
            },
            Packet::I8(v) => {
                out.push(3);
                crate::endian::write_i8(&mut out, *v);
            },
            Packet::I16(v) => {
                out.push(4);
                crate::endian::write_i16(&mut out, *v);
            },
            Packet::I32(v) => {
                out.push(5);
                crate::endian::write_i32(&mut out, *v);
            },
            Packet::I64(v) => {
                out.push(6);
                crate::endian::write_i64(&mut out, *v);
            },
            Packet::F32(bits) => {
                out.push(7);
                crate::endian::write_u32(&mut out, *bits);
            },
            Packet::F64(bits) => {
                out.push(8);
                crate::endian::write_u64(&mut out, *bits);
            },
            Packet::U8(v) => {
                out.push(9);
                crate::endian::write_u8(&mut out, *v);
            },
            Packet::U16(v) => {
                out.push(10);
                crate::endian::write_u16(&mut out, *v);
            },
            Packet::U32(v) => {
                out.push(11);
                crate::endian::write_u32(&mut out, *v);
            },
            Packet::U64(v) => {
                out.push(12);
                crate::endian::write_u64(&mut out, *v);
            },
            Packet::Identified(id, data) => {
                out.push(13);
                crate::endian::write_u32(&mut out, *id);
                out.extend_from_slice(data.as_slice());
            },
        }
        assert(out@ =~= encoding(self@));
        out
    }

    /// The packet that `bytes` are, or the error if they are none.
    pub fn decode(bytes: Vec<u8>) -> (r: Result<Packet, PacketDecodeError>)
        ensures
            match r {
                Ok(packet) => parse(bytes@) == Some(packet@),
                Err(_) => parse(bytes@) is None,
            },
    {
        if bytes.len() == 0 {
            return Err(PacketDecodeError);
        }
        let tag: u8 = bytes[0];
        let payload = slice_subrange(bytes.as_slice(), 1, bytes.len());
        match tag {
            1 => Ok(Packet::Bytes(slice_to_vec(payload))),
            2 => match String::from_utf8(slice_to_vec(payload)) {
                Ok(text) => {
                    proof {
                        vstd::utf8::encode_utf8_decode_utf8(text@);
                    }
                    Ok(Packet::String(text))
                },
                Err(_) => Err(PacketDecodeError),
            },
            3 => match crate::endian::read_i8(payload) {
                Ok(v) => Ok(Packet::I8(v)),
                Err(_) => Err(PacketDecodeError),
            },
            4 => match crate::endian::read_i16(payload) {
                Ok(v) => Ok(Packet::I16(v)),
                Err(_) => Err(PacketDecodeError),
            },
            5 => match crate::endian::read_i32(payload) {
                Ok(v) => Ok(Packet::I32(v)),
                Err(_) => Err(PacketDecodeError),
            },
            6 => match crate::endian::read_i64(payload) {
                Ok(v) => Ok(Packet::I64(v)),
                Err(_) => Err(PacketDecodeError),
            },
            7 => match crate::endian::read_u32(payload) {
                Ok(bits) => Ok(Packet::F32(bits)),
                Err(_) => Err(PacketDecodeError),
            },
            8 => match crate::endian::read_u64(payload) {
                Ok(bits) => Ok(Packet::F64(bits)),
                Err(_) => Err(PacketDecodeError),
            },
            9 => match crate::endian::read_u8(payload) {
                Ok(v) => Ok(Packet::U8(v)),
                Err(_) => Err(PacketDecodeError),
            },
            10 => match crate::endian::read_u16(payload) {
                Ok(v) => Ok(Packet::U16(v)),
                Err(_) => Err(PacketDecodeError),
            },
            11 => match crate::endian::read_u32(payload) {
                Ok(v) => Ok(Packet::U32(v)),
                Err(_) => Err(PacketDecodeError),
            },
            12 => match crate::endian::read_u64(payload) {
                Ok(v) => Ok(Packet::U64(v)),
                Err(_) => Err(PacketDecodeError),
            },
            13 => match crate::endian::read_u32(payload) {
                Ok(id) => {
                    let data = slice_subrange(payload, 4, payload.len());
                    Ok(Packet::Identified(id, slice_to_vec(data)))
                },
                Err(_) => Err(PacketDecodeError),
            },
            _ => Ok(Packet::Invalid),
        }
    }
}

/// Whether `tag` names a variant that holds one number of fixed width.
pub open spec fn is_numeric_tag(tag: u8) -> bool {
    3 <= tag <= 12
}

/// Whether `tag` names a variant at all.
pub open spec fn is_known_tag(tag: u8) -> bool {
    1 <= tag <= 13
}

/// Every packet but `Invalid` comes back from its own encoding: its bytes are
/// a packet, and that packet is the one that was encoded.
pub proof fn lemma_decode_of_encode(packet: PacketView)
    requires
        packet != PacketView::Invalid,
    ensures
        parse(encoding(packet)) == Some(packet),
{
    crate::endian::lemma_span_values();
    let bytes = encoding(packet);
    let payload = bytes.subrange(1, bytes.len() as int);
    match packet {
        PacketView::Invalid => {},
        PacketView::Bytes(data) => {
            assert(payload =~= data);
        },
        PacketView::String(text) => {
            assert(payload =~= encode_utf8(text));
            vstd::utf8::encode_utf8_valid_utf8(text);
            vstd::utf8::encode_utf8_decode_utf8(text);
        },
        PacketView::I8(v) => {
            lemma_number_comes_back(bytes[0], to_unsigned(v as int, 1), 1);
        },
        PacketView::I16(v) => {
            lemma_number_comes_back(bytes[0], to_unsigned(v as int, 2), 2);
        },
        PacketView::I32(v) => {
            lemma_number_comes_back(bytes[0], to_unsigned(v as int, 4), 4);
        },
        PacketView::I64(v) => {
            lemma_number_comes_back(bytes[0], to_unsigned(v as int, 8), 8);
        },
        PacketView::F32(bits) => {
            lemma_number_comes_back(bytes[0], bits as nat, 4);
        },
        PacketView::F64(bits) => {
            lemma_number_comes_back(bytes[0], bits as nat, 8);
        },
        PacketView::U8(v) => {
            lemma_number_comes_back(bytes[0], v as nat, 1);
        },
        PacketView::U16(v) => {
            lemma_number_comes_back(bytes[0], v as nat, 2);
        },
        PacketView::U32(v) => {
            lemma_number_comes_back(bytes[0], v as nat, 4);
        },
        PacketView::U64(v) => {
            lemma_number_comes_back(bytes[0], v as nat, 8);
        },
        PacketView::Identified(id, data) => {
            let digits = le_bytes(id as nat, 4);
            crate::endian::lemma_le_bytes_len(id as nat, 4);
            crate::endian::lemma_value_of_bytes(id as nat, 4);
            assert(payload =~= digits + data);
            assert(payload.subrange(0, 4) =~= digits);
            assert(payload.subrange(4, payload.len() as int) =~= data);
        },
    }
}

/// Behind one tag byte, the digits of a number that fits its width are a
/// payload whose leading number is that number.
proof fn lemma_number_comes_back(tag: u8, n: nat, width: nat)
    requires
        n < crate::endian::span(width),
    ensures
        ({
            let bytes = seq![tag] + le_bytes(n, width);
            &&& bytes.len() == 1 + width
            &&& leading(bytes.subrange(1, bytes.len() as int), width) == n
        }),
{
    let bytes = seq![tag] + le_bytes(n, width);
    let payload = bytes.subrange(1, bytes.len() as int);
    crate::endian::lemma_le_bytes_len(n, width);
    crate::endian::lemma_value_of_bytes(n, width);
    assert(payload =~= le_bytes(n, width));
    assert(payload.subrange(0, width as int) =~= payload);
}

/// Bytes are a packet unless there are none, or the payload is shorter than
/// the variant under the tag needs, or the tag says text and the payload is no
/// UTF-8.
pub proof fn lemma_parse_succeeds(bytes: Seq<u8>)
    ensures
        parse(bytes) is Some <==> {
            &&& bytes.len() > 0
            &&& bytes.len() - 1 >= min_payload(bytes[0])
            &&& (bytes[0] == 2 ==> valid_utf8(bytes.subrange(1, bytes.len() as int)))
        },
{
}

/// A numeric tag followed by fewer bytes than its variant is wide is no
/// packet; followed by that many or more, it is one.
pub proof fn lemma_truncated_number(bytes: Seq<u8>)
    requires
        bytes.len() > 0,
        is_numeric_tag(bytes[0]),
    ensures
        min_payload(bytes[0]) > 0,
        parse(bytes) is None <==> bytes.len() - 1 < min_payload(bytes[0]),
{
}

/// No bytes at all are no packet. This is not the case of an unknown tag,
/// which is a packet.
pub proof fn lemma_empty_is_no_packet()
    ensures
        parse(Seq::<u8>::empty()) is None,
{
}

/// Bytes that begin with a tag that names no variant are the packet
/// `Invalid`, whatever follows.
pub proof fn lemma_unknown_tag(bytes: Seq<u8>)
    requires
        bytes.len() > 0,
        !is_known_tag(bytes[0]),
    ensures
        parse(bytes) == Some(PacketView::Invalid),
{
}

/// A packet's encoding begins with its tag, and only `Invalid` has none.
pub proof fn lemma_encoding_starts_with_tag(packet: PacketView)
    ensures
        packet == PacketView::Invalid <==> encoding(packet).len() == 0,
        packet != PacketView::Invalid ==> is_known_tag(encoding(packet)[0]),
{
}

/// Under a numeric tag only the number counts: what follows it in the
/// payload changes nothing.
pub proof fn lemma_number_ignores_rest(bytes: Seq<u8>)
    requires
        bytes.len() > 0,
        is_numeric_tag(bytes[0]),
        bytes.len() - 1 >= min_payload(bytes[0]),
    ensures
        parse(bytes) == parse(bytes.subrange(0, 1 + min_payload(bytes[0]) as int)),
{
    let width = min_payload(bytes[0]);
    let short = bytes.subrange(0, 1 + width as int);
    let payload = bytes.subrange(1, bytes.len() as int);
    let short_payload = short.subrange(1, short.len() as int);
    assert(short_payload.subrange(0, width as int) =~= payload.subrange(0, width as int));
}

/// How long an encoding is: the tag and the payload; nothing for `Invalid`.
pub proof fn lemma_encoding_length(packet: PacketView)
    ensures
        encoding(packet).len() == match packet {
            PacketView::Invalid => 0,
            PacketView::Bytes(data) => 1 + data.len(),
            PacketView::String(text) => 1 + encode_utf8(text).len(),
            PacketView::Identified(_, data) => 5 + data.len(),
            _ => 1 + min_payload(encoding(packet)[0]),
        },
{
    crate::endian::lemma_le_bytes_len(0, 0);
    match packet {
        PacketView::I8(v) => crate::endian::lemma_le_bytes_len(to_unsigned(v as int, 1), 1),
        PacketView::I16(v) => crate::endian::lemma_le_bytes_len(to_unsigned(v as int, 2), 2),
        PacketView::I32(v) => crate::endian::lemma_le_bytes_len(to_unsigned(v as int, 4), 4),
        PacketView::I64(v) => crate::endian::lemma_le_bytes_len(to_unsigned(v as int, 8), 8),
        PacketView::F32(v) => crate::endian::lemma_le_bytes_len(v as nat, 4),
        PacketView::F64(v) => crate::endian::lemma_le_bytes_len(v as nat, 8),
        PacketView::U8(v) => crate::endian::lemma_le_bytes_len(v as nat, 1),
        PacketView::U16(v) => crate::endian::lemma_le_bytes_len(v as nat, 2),
        PacketView::U32(v) => crate::endian::lemma_le_bytes_len(v as nat, 4),
        PacketView::U64(v) => crate::endian::lemma_le_bytes_len(v as nat, 8),
        PacketView::Identified(id, _) => crate::endian::lemma_le_bytes_len(id as nat, 4),
        _ => {},
    }
}

/// Bytes that are a packet are that packet's own encoding, where nothing
/// follows a number: decoding loses nothing of such bytes. Bytes under an
/// unknown tag are left out, since `Invalid` is written as nothing.
pub proof fn lemma_encode_of_decode(bytes: Seq<u8>)
    requires
        parse(bytes) is Some,
        parse(bytes) != Some(PacketView::Invalid),
        is_numeric_tag(bytes[0]) ==> bytes.len() == 1 + min_payload(bytes[0]),
    ensures
        encoding(parse(bytes).unwrap()) == bytes,
{
    crate::endian::lemma_span_values();
    let tag = bytes[0];
    let payload = bytes.subrange(1, bytes.len() as int);
    let width = min_payload(tag);
    let number = payload.subrange(0, width as int);
    crate::endian::lemma_le_value_bound(number);
    crate::endian::lemma_bytes_of_value(number);
    crate::endian::lemma_unsigned_round_trip(le_value(number), width);
    if tag == 1 {
        assert(seq![1u8] + payload =~= bytes);
    } else if tag == 2 {
        vstd::utf8::decode_utf8_encode_utf8(payload);
        assert(seq![2u8] + payload =~= bytes);
    } else if tag == 13 {
        assert(seq![13u8] + number + payload.subrange(4, payload.len() as int) =~= bytes);
    } else {
        assert(number =~= payload);
        assert(seq![tag] + payload =~= bytes);
    }
}

} // verus!
