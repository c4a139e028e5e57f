//! What one end of a connection makes of what its stream delivered.
//!
//! A read fills a buffer of fixed capacity, and the packet is decoded from
//! the whole buffer. A message shorter than the buffer is followed by zero
//! bytes, and of a longer one only the first part is kept. A payload of bytes
//! or of text therefore comes out as long as the buffer allows, with zero
//! bytes at its end: the encoding has no length by which to tell them apart.

use vstd::prelude::*;
use crate::packet::parse;
use crate::packet::Packet;
use crate::packet::PacketView;

verus! {

/// How many bytes a client takes in one read.
pub const CLIENT_CAPACITY: usize = 50;

/// How many bytes a server takes in one read from a connected client.
pub const PEER_CAPACITY: usize = 64;

/// Why a read on a connection gave no packet.
#[derive(Debug, Clone, Copy, PartialEq, Eq, Structural)]
pub enum ReadingError {
    /// The transport failed, or the peer closed the stream.
    Reading,
    /// Bytes arrived, but they are no packet.
    Decode,
}

/// Why no connection came about.
#[derive(Debug, Clone, PartialEq, Eq)]
pub enum ConnectionError {
    /// A client could not connect; the text says why.
    Client(String),
}

impl ConnectionError {
    /// The cause, in words.
    pub open spec fn cause(self) -> Seq<char> {
        match self {
            ConnectionError::Client(cause) => cause@,
        }
    }

    /// The cause, in words.
    pub fn cause_text(&self) -> (text: &str)
        ensures
            text@ == self.cause(),
    {
        match self {
            ConnectionError::Client(cause) => cause.as_str(),
        }
    }
}

/// The buffer after a read that delivered `received` into `capacity` zero
/// bytes: what arrived, as far as it fits, and zeros behind it.
pub open spec fn framed(received: Seq<u8>, capacity: nat) -> Seq<u8> {
    Seq::new(
        capacity,
        |i: int|
            if i < received.len() {
                received[i]
            } else {
                0u8
            },
    )
}

/// What a read gives. `received` is `None` where the transport failed, and
/// else the bytes that it delivered; none at all means that the peer closed
/// the stream.
pub open spec fn read_result(received: Option<Seq<u8>>, capacity: nat) -> Result<
    PacketView,
    ReadingError,
> {
    match received {
        None => Err(ReadingError::Reading),
        Some(bytes) => if bytes.len() == 0 {
            Err(ReadingError::Reading)
        } else {
            match parse(framed(bytes, capacity)) {
                Some(packet) => Ok(packet),
                None => Err(ReadingError::Decode),
            }
        },
    }
}

/// What a read delivered, as a mathematical value.
pub open spec fn delivered(received: Option<&[u8]>) -> Option<Seq<u8>> {
    match received {
        Some(bytes) => Some(bytes@),
        None => None,
    }
}

/// The result of a read as a mathematical value.
pub open spec fn result_view(r: Result<Packet, ReadingError>) -> Result<PacketView, ReadingError> {
    match r {
        Ok(packet) => Ok(packet@),
        Err(e) => Err(e),
    }
}

/// `count` zero bytes.
pub open spec fn zeros(count: nat) -> Seq<u8> {
    Seq::new(count, |i: int| 0u8)
}

/// `count` characters with the number zero.
pub open spec fn nuls(count: nat) -> Seq<char> {
    Seq::new(count, |i: int| '\0')
}

/// Whether a packet holds one number of fixed width.
pub open spec fn is_number(packet: PacketView) -> bool {
    match packet {
        PacketView::Invalid => false,
        PacketView::Bytes(_) => false,
        PacketView::String(_) => false,
        PacketView::Identified(_, _) => false,
        _ => true,
    }
}

/// The buffer of `capacity` bytes that holds `received`: cut where it is
/// longer, filled up with zeros where it is shorter.
pub fn frame(received: &[u8], capacity: usize) -> (buffer: Vec<u8>)
    ensures
        buffer@ == framed(received@, capacity as nat),
{
    let mut buffer: Vec<u8> = Vec::new();
    let mut i: usize = 0;
    while i < capacity
        invariant
            i <= capacity,
            buffer@.len() == i,
            forall|k: int| 0 <= k < i ==> buffer@[k] == framed(received@, capacity as nat)[k],
        decreases capacity - i,
    {
        let byte: u8 = if i < received.len() {
            received[i]
        } else {
            0
        };
        buffer.push(byte);
        i += 1;
    }
    assert(buffer@ =~= framed(received@, capacity as nat));
    buffer
}

/// The packet that a read gives, or why it gives none. `received` is `None`
/// where the transport failed, and else the bytes that it delivered into a
/// buffer of `capacity` bytes.
pub fn receive(received: Option<&[u8]>, capacity: usize) -> (r: Result<Packet, ReadingError>)
    ensures
        result_view(r) == read_result(delivered(received), capacity as nat),
{
    match received {
        None => Err(ReadingError::Reading),
        Some(bytes) => {
            if bytes.len() == 0 {
                Err(ReadingError::Reading)
            } else {
                match Packet::decode(frame(bytes, capacity)) {
                    Ok(packet) => Ok(packet),
                    Err(_) => Err(ReadingError::Decode),
                }
            }
        },
    }
}

/// The buffer has the capacity asked for, begins with what arrived, as far as
/// that fits, and holds zeros behind it.
pub proof fn lemma_frame_shape(received: Seq<u8>, capacity: nat)
    ensures
        framed(received, capacity).len() == capacity,
        received.len() <= capacity ==> framed(received, capacity) == received + zeros(
            (capacity - received.len()) as nat,
        ),
        received.len() >= capacity ==> framed(received, capacity) == received.subrange(
            0,
            capacity as int,
        ),
{
    if received.len() <= capacity {
        assert(framed(received, capacity) =~= received + zeros((capacity - received.len()) as nat));
    }
    if received.len() >= capacity {
        assert(framed(received, capacity) =~= received.subrange(0, capacity as int));
    }
}

/// A number that was sent is the number that is read, where the buffer holds
/// a tag and eight bytes or more.
pub proof fn lemma_read_of_sent_number(packet: PacketView, capacity: nat)
    requires
        is_number(packet),
        capacity >= 9,
    ensures
        read_result(Some(crate::packet::encoding(packet)), capacity) == Ok::<
            PacketView,
            ReadingError,
        >(packet),
{
    let sent = crate::packet::encoding(packet);
    let buffer = framed(sent, capacity);
    crate::packet::lemma_decode_of_encode(packet);
    crate::packet::lemma_encoding_length(packet);
    assert(buffer[0] == sent[0]);
    assert(buffer.subrange(0, 1 + crate::packet::min_payload(buffer[0]) as int) =~= sent);
    crate::packet::lemma_number_ignores_rest(buffer);
}

/// Bytes that were sent are read with zeros behind them, as many as the
/// buffer has room for; bytes that just fill the buffer are read as they were
/// sent.
pub proof fn lemma_read_of_sent_bytes(data: Seq<u8>, capacity: nat)
    requires
        1 + data.len() <= capacity,
    ensures
        read_result(Some(crate::packet::encoding(PacketView::Bytes(data))), capacity) == Ok::<
            PacketView,
            ReadingError,
        >(PacketView::Bytes(data + zeros((capacity - 1 - data.len()) as nat))),
{
    let sent = crate::packet::encoding(PacketView::Bytes(data));
    let buffer = framed(sent, capacity);
    let padded = data + zeros((capacity - 1 - data.len()) as nat);
    assert(buffer.subrange(1, buffer.len() as int) =~= padded);
}

/// Identified bytes that were sent are read under their identifier, with
/// zeros behind them, as many as the buffer has room for.
pub proof fn lemma_read_of_sent_identified(id: u32, data: Seq<u8>, capacity: nat)
    requires
        5 + data.len() <= capacity,
    ensures
        read_result(
            Some(crate::packet::encoding(PacketView::Identified(id, data))),
            capacity,
        ) == Ok::<PacketView, ReadingError>(
            PacketView::Identified(id, data + zeros((capacity - 5 - data.len()) as nat)),
        ),
{
    let packet = PacketView::Identified(id, data);
    let sent = crate::packet::encoding(packet);
    let buffer = framed(sent, capacity);
    let padded = data + zeros((capacity - 5 - data.len()) as nat);
    let digits = crate::endian::le_bytes(id as nat, 4);
    crate::endian::lemma_span_values();
    crate::endian::lemma_le_bytes_len(id as nat, 4);
    crate::endian::lemma_value_of_bytes(id as nat, 4);
    let payload = buffer.subrange(1, buffer.len() as int);
    assert(payload.subrange(0, 4) =~= digits);
    assert(payload.subrange(4, payload.len() as int) =~= padded);
}

/// A read into a buffer of a tag and eight bytes or more never cuts a number
/// short: bytes under a numeric tag are always a packet.
pub proof fn lemma_numbers_are_never_cut(received: Seq<u8>, capacity: nat)
    requires
        received.len() > 0,
        crate::packet::is_numeric_tag(received[0]),
        capacity >= 9,
    ensures
        read_result(Some(received), capacity) is Ok,
{
    crate::packet::lemma_truncated_number(framed(received, capacity));
}

/// A read fails with `Reading` exactly where the transport failed or
/// delivered nothing.
pub proof fn lemma_reading_failure(received: Option<Seq<u8>>, capacity: nat)
    ensures
        read_result(received, capacity) == Err::<PacketView, ReadingError>(ReadingError::Reading)
            <==> (received is None || received.unwrap().len() == 0),
{
}

/// The UTF-8 of two texts in a row is the UTF-8 of the first and then that of
/// the second.
proof fn lemma_utf8_of_texts_in_a_row(first: Seq<char>, second: Seq<char>)
    ensures
        vstd::utf8::encode_utf8(first + second) == vstd::utf8::encode_utf8(first)
            + vstd::utf8::encode_utf8(second),
    decreases first.len(),
{
    if first.len() == 0 {
        assert(first + second =~= second);
        assert(vstd::utf8::encode_utf8(first) + vstd::utf8::encode_utf8(second)
            =~= vstd::utf8::encode_utf8(second));
    } else {
        assert((first + second).drop_first() =~= first.drop_first() + second);
        lemma_utf8_of_texts_in_a_row(first.drop_first(), second);
        assert(vstd::utf8::encode_utf8(first + second) =~= vstd::utf8::encode_utf8(first)
            + vstd::utf8::encode_utf8(second));
    }
}

/// Text that was sent is read with characters of the number zero behind it,
/// one for each byte that the buffer has room for.
pub proof fn lemma_read_of_sent_text(text: Seq<char>, capacity: nat)
    requires
        1 + vstd::utf8::encode_utf8(text).len() <= capacity,
    ensures
        read_result(Some(crate::packet::encoding(PacketView::String(text))), capacity) == Ok::<
            PacketView,
            ReadingError,
        >(
            PacketView::String(
                text + nuls((capacity - 1 - vstd::utf8::encode_utf8(text).len()) as nat),
            ),
        ),
{
    let sent = crate::packet::encoding(PacketView::String(text));
    let buffer = framed(sent, capacity);
    let room = (capacity - 1 - vstd::utf8::encode_utf8(text).len()) as nat;
    let padded = text + nuls(room);
    vstd::utf8::is_ascii_chars_encode_utf8(nuls(room));
    assert(vstd::utf8::encode_utf8(nuls(room)) =~= zeros(room));
    lemma_utf8_of_texts_in_a_row(text, nuls(room));
    assert(buffer.subrange(1, buffer.len() as int) =~= vstd::utf8::encode_utf8(padded));
    vstd::utf8::encode_utf8_valid_utf8(padded);
    vstd::utf8::encode_utf8_decode_utf8(padded);
}

} // verus!
