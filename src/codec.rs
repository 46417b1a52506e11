//! Frame assembly from a byte stream and construction of reply frames.
//!
//! Wire layout, integers little-endian:
//! start byte `0xA5`, body length (2), type code (2), sequence number (1),
//! second sequence number (1), logger serial (4), body, checksum (1), end
//! byte `0x15`. The checksum is the wrapping sum of every byte after the
//! start byte up to the end of the body.

use vstd::prelude::*;
use bytes::BytesMut;
use crate::buffer::{
    buffer_advance, buffer_contents, buffer_extend, buffer_len, buffer_prefix, buffer_reserve,
};
use crate::messages::{
    SERVER_RESPONSE_LEN,
    incoming_payload, message_type_of, DecodeError, IncomingMessageData, IncomingView,
    MessageView, OutgoingMessageData, SofarMessage, SofarMessageType,
};
use crate::wire::{
    byte_sum, calc_checksum, checksum, le_u16, le_u32, push_u16_le, push_u32_le, read_u16_le, read_u32_le,
    u16_le_bytes, u32_le_bytes,
};

verus! {

/// Bytes before the body: start, length, type, two sequence numbers, serial.
pub const HEADER_LEN: usize = 11;

/// Bytes after the body: checksum and end byte.
pub const TRAILER_LEN: usize = 2;

/// First byte of every frame.
pub const START_BYTE: u8 = 0xA5;

/// Last byte of every frame.
pub const END_BYTE: u8 = 0x15;

/// The header fields of a frame, whatever its type code.
#[derive(Debug, Clone, Copy, PartialEq, Eq, Structural)]
pub struct FrameHeader {
    pub body_length: u16,
    pub message_type: u16,
    pub message_number: u8,
    pub message_number_2: u8,
    pub data_logger_sn: u32,
}

/// The header fields stored at the start of `s`.
pub open spec fn header_of(s: Seq<u8>) -> FrameHeader {
    FrameHeader {
        body_length: le_u16(s, 1),
        message_type: le_u16(s, 3),
        message_number: s[5],
        message_number_2: s[6],
        data_logger_sn: le_u32(s, 7),
    }
}

/// The length of the frame that starts `s`, as its header announces it.
pub open spec fn frame_len(s: Seq<u8>) -> int {
    HEADER_LEN + le_u16(s, 1) + TRAILER_LEN
}

/// Whether `s` starts with a whole frame.
pub open spec fn frame_available(s: Seq<u8>) -> bool {
    s.len() >= HEADER_LEN && s.len() >= frame_len(s)
}

/// What the frame at the start of `f` decodes to. The type code is looked
/// up first, then the checksum is compared, then the body is decoded.
pub open spec fn frame_outcome(f: Seq<u8>) -> Result<MessageView<IncomingView>, DecodeError> {
    let h = header_of(f);
    let end = HEADER_LEN + h.body_length;
    match message_type_of(h.message_type) {
        None => Err(DecodeError::UnknownMessageType(h.message_type)),
        Some(t) => if checksum(f.subrange(1, end)) != f[end] {
            Err(DecodeError::ChecksumMismatch(f[end]))
        } else {
            match incoming_payload(t, f.subrange(HEADER_LEN as int, end)) {
                Ok(d) => Ok(
                    MessageView {
                        data: d,
                        message_type: t,
                        message_number: h.message_number,
                        message_number_2: h.message_number_2,
                        data_logger_sn: h.data_logger_sn,
                    },
                ),
                Err(e) => Err(e),
            }
        },
    }
}

/// `r` is the decoding result that `outcome` describes.
pub open spec fn reports(
    r: Result<SofarMessage<IncomingMessageData>, DecodeError>,
    outcome: Result<MessageView<IncomingView>, DecodeError>,
) -> bool {
    match outcome {
        Ok(v) => r matches Ok(m) && m@ == v,
        Err(e) => r == Err::<SofarMessage<IncomingMessageData>, DecodeError>(e),
    }
}

/// What one decoding step does to the unconsumed stream `s`: with no whole
/// frame it reports nothing and keeps `s`; otherwise it reports the first
/// frame's outcome and leaves what follows that frame.
pub open spec fn decode_step(
    s: Seq<u8>,
    r: Result<Option<SofarMessage<IncomingMessageData>>, DecodeError>,
    rest: Seq<u8>,
) -> bool {
    if !frame_available(s) {
        r matches Ok(None) && rest == s
    } else {
        &&& rest == s.skip(frame_len(s))
        &&& match frame_outcome(s.take(frame_len(s))) {
            Ok(v) => r matches Ok(Some(m)) && m@ == v,
            Err(e) => r == Err::<Option<SofarMessage<IncomingMessageData>>, DecodeError>(e),
        }
    }
}

/// The bytes of a frame with the given header fields and body.
pub open spec fn frame_bytes(
    message_type: u16,
    message_number: u8,
    message_number_2: u8,
    data_logger_sn: u32,
    body: Seq<u8>,
) -> Seq<u8> {
    let content = seq![START_BYTE] + u16_le_bytes(body.len() as u16) + u16_le_bytes(message_type)
        + seq![message_number, message_number_2] + u32_le_bytes(data_logger_sn) + body;
    content + seq![checksum(content.skip(1)), END_BYTE]
}

/// The frame that carries `m`: its kind's response code, its header fields
/// and its serialized body.
pub open spec fn response_frame(m: MessageView<OutgoingMessageData>) -> Seq<u8> {
    match m.data {
        OutgoingMessageData::ServerResponse(r) => frame_bytes(
            m.message_type.response_code_spec(),
            m.message_number,
            m.message_number_2,
            m.data_logger_sn,
            r.spec_bytes(),
        ),
    }
}

/// Reads the header fields at the start of `b`, if it holds a whole header.
pub fn read_header(b: &[u8]) -> (r: Option<FrameHeader>)
    ensures
        b@.len() < HEADER_LEN ==> r is None,
        b@.len() >= HEADER_LEN ==> r == Some(header_of(b@)),
{
    if b.len() < HEADER_LEN {
        return None;
    }
    Some(
        FrameHeader {
            body_length: read_u16_le(b, 1),
            message_type: read_u16_le(b, 3),
            message_number: b[5],
            message_number_2: b[6],
            data_logger_sn: read_u32_le(b, 7),
        },
    )
}

/// Frame decoder and encoder for one connection. It holds no state: the
/// unconsumed bytes live in the buffer that the caller passes in.
#[derive(Debug, Default)]
pub struct SofarCodec {}

impl SofarCodec {
    /// Decodes the frame at the start of `b`, which holds a whole frame.
    pub fn decode_frame(b: &[u8]) -> (r: Result<SofarMessage<IncomingMessageData>, DecodeError>)
        requires
            frame_available(b@),
        ensures
            reports(r, frame_outcome(b@)),
    {
        let h = match read_header(b) {
            Some(h) => h,
            None => return Err(DecodeError::BodyTooShort),
        };
        let end: usize = HEADER_LEN + h.body_length as usize;
        let t = match SofarMessageType::from_u16(h.message_type) {
            Some(t) => t,
            None => return Err(DecodeError::UnknownMessageType(h.message_type)),
        };
        let calculated: u8 = calc_checksum(&b[1..end]);
        let found: u8 = b[end];
        if calculated != found {
            return Err(DecodeError::ChecksumMismatch(found));
        }
        match IncomingMessageData::parse(t, &b[HEADER_LEN..end]) {
            Ok(data) => Ok(
                SofarMessage {
                    data,
                    message_type: t,
                    message_number: h.message_number,
                    message_number_2: h.message_number_2,
                    data_logger_sn: h.data_logger_sn,
                },
            ),
            Err(e) => Err(e),
        }
    }

    /// Takes the next frame off the front of `buf`. With no whole frame yet it
    /// returns `Ok(None)`, keeps every byte and reserves room for the rest of
    /// the frame. Otherwise it consumes exactly that frame, whether or not it
    /// decodes, so that the stream stays aligned on the next frame.
    pub fn decode(&mut self, buf: &mut BytesMut) -> (r: Result<
        Option<SofarMessage<IncomingMessageData>>,
        DecodeError,
    >)
        ensures
            decode_step(buffer_contents(*old(buf)), r, buffer_contents(*final(buf))),
    {
        let len: usize = buffer_len(buf);
        if len < HEADER_LEN {
            buffer_reserve(buf, HEADER_LEN - len);
            return Ok(None);
        }
        let head: Vec<u8> = buffer_prefix(buf, HEADER_LEN);
        let body_length: u16 = read_u16_le(head.as_slice(), 1);
        proof {
            assert(head@ =~= buffer_contents(*buf).take(HEADER_LEN as int));
        }
        let total: usize = HEADER_LEN + body_length as usize + TRAILER_LEN;
        if len < total {
            buffer_reserve(buf, total - len);
            return Ok(None);
        }
        let frame: Vec<u8> = buffer_prefix(buf, total);
        buffer_advance(buf, total);
        proof {
            let s = buffer_contents(*old(buf));
            assert(frame@ =~= s.take(frame_len(s)));
            assert(frame@[1] == s[1] && frame@[2] == s[2]);
        }
        match Self::decode_frame(frame.as_slice()) {
            Ok(m) => Ok(Some(m)),
            Err(e) => Err(e),
        }
    }

    /// Serializes `item` as a frame.
    pub fn encode_frame(item: &SofarMessage<OutgoingMessageData>) -> (r: Vec<u8>)
        ensures
            r@ == response_frame(item@),
    {
        let body: Vec<u8> = match &item.data {
            OutgoingMessageData::ServerResponse(data) => data.to_bytes(),
        };
        let mut out: Vec<u8> = Vec::with_capacity(HEADER_LEN + body.len() + TRAILER_LEN);
        out.push(START_BYTE);
        push_u16_le(&mut out, body.len() as u16);
        push_u16_le(&mut out, item.message_type.response_code());
        out.push(item.message_number);
        out.push(item.message_number_2);
        push_u32_le(&mut out, item.data_logger_sn);
        let mut i: usize = 0;
        while i < body.len()
            invariant
                i <= body@.len(),
                out@.len() == HEADER_LEN + i,
                out@ == seq![START_BYTE] + u16_le_bytes(body@.len() as u16) + u16_le_bytes(
                    item.message_type.response_code_spec(),
                ) + seq![item.message_number, item.message_number_2] + u32_le_bytes(
                    item.data_logger_sn,
                ) + body@.take(i as int),
            decreases body@.len() - i,
        {
            out.push(body[i]);
            i = i + 1;
            assert(out@ =~= seq![START_BYTE] + u16_le_bytes(body@.len() as u16) + u16_le_bytes(
                item.message_type.response_code_spec(),
            ) + seq![item.message_number, item.message_number_2] + u32_le_bytes(
                item.data_logger_sn,
            ) + body@.take(i as int));
        }
        assert(body@.take(i as int) =~= body@);
        let n: usize = out.len();
        let sum: u8 = calc_checksum(&out.as_slice()[1..n]);
        proof {
            assert(out@.subrange(1, n as int) =~= out@.skip(1));
        }
        out.push(sum);
        out.push(END_BYTE);
        out
    }

    /// Appends the frame that carries `item` to `buf`.
    pub fn encode(&mut self, item: SofarMessage<OutgoingMessageData>, buf: &mut BytesMut)
        requires
            buffer_contents(*old(buf)).len() + response_frame(item@).len() <= usize::MAX,
        ensures
            buffer_contents(*final(buf)) == buffer_contents(*old(buf)) + response_frame(item@),
    {
        let bytes: Vec<u8> = Self::encode_frame(&item);
        buffer_extend(buf, bytes.as_slice());
    }
}

/// The bytes of `le_u16` read back what `u16_le_bytes` wrote.
pub proof fn lemma_u16_le_round_trip(v: u16)
    ensures
        le_u16(u16_le_bytes(v), 0) == v,
{
}

/// The bytes of `le_u32` read back what `u32_le_bytes` wrote.
pub proof fn lemma_u32_le_round_trip(v: u32)
    ensures
        le_u32(u32_le_bytes(v), 0) == v,
{
    let b = u32_le_bytes(v);
    assert(b[0] as int + 256 * b[1] as int + 65536 * b[2] as int + 16777216 * b[3] as int == v)
        by (nonlinear_arith)
        requires
            b[0] == v % 256,
            b[1] == (v / 256) % 256,
            b[2] == (v / 65536) % 256,
            b[3] == v / 16777216,
            0 <= v < 0x1_0000_0000,
    ;
}

/// A reply frame read back as a generic frame: its header gives the body
/// length of the serialized body, the kind's response code, the sequence
/// numbers and the logger serial that were encoded; the frame is exactly as
/// long as its header announces, and its checksum holds.
pub proof fn lemma_response_header_round_trip(m: MessageView<OutgoingMessageData>)
    ensures
        ({
            let f = response_frame(m);
            let h = header_of(f);
            let body = match m.data {
                OutgoingMessageData::ServerResponse(r) => r.spec_bytes(),
            };
            &&& h.body_length == body.len()
            &&& h.body_length == SERVER_RESPONSE_LEN
            &&& h.message_type == m.message_type.response_code_spec()
            &&& h.message_number == m.message_number
            &&& h.message_number_2 == m.message_number_2
            &&& h.data_logger_sn == m.data_logger_sn
            &&& frame_available(f)
            &&& f.len() == frame_len(f)
            &&& checksum(f.subrange(1, HEADER_LEN + h.body_length)) == f[HEADER_LEN
                + h.body_length]
            &&& f.subrange(HEADER_LEN as int, HEADER_LEN + h.body_length) == body
        }),
{
    let body = match m.data {
        OutgoingMessageData::ServerResponse(r) => r.spec_bytes(),
    };
    let len_bytes = u16_le_bytes(body.len() as u16);
    let code_bytes = u16_le_bytes(m.message_type.response_code_spec());
    let sn_bytes = u32_le_bytes(m.data_logger_sn);
    let content = seq![START_BYTE] + len_bytes + code_bytes + seq![
        m.message_number,
        m.message_number_2,
    ] + sn_bytes + body;
    let f = response_frame(m);
    assert(f == content + seq![checksum(content.skip(1)), END_BYTE]);
    lemma_u16_le_round_trip(body.len() as u16);
    lemma_u16_le_round_trip(m.message_type.response_code_spec());
    lemma_u32_le_round_trip(m.data_logger_sn);
    assert(f[1] == len_bytes[0] && f[2] == len_bytes[1]);
    assert(f[3] == code_bytes[0] && f[4] == code_bytes[1]);
    assert(f[7] == sn_bytes[0] && f[8] == sn_bytes[1] && f[9] == sn_bytes[2] && f[10]
        == sn_bytes[3]);
    assert(f.subrange(1, HEADER_LEN + body.len()) =~= content.skip(1));
    assert(f.subrange(HEADER_LEN as int, HEADER_LEN + body.len()) =~= body);
}

/// Splitting the stream anywhere inside its first frame changes nothing:
/// a decoding step on the first part reports nothing and keeps every byte,
/// and appending the second part gives back the whole stream, which then
/// decodes as if it had arrived at once. Bytes that follow a whole frame
/// (coalesced frames) do not change how it is cut out.
pub proof fn lemma_partial_delivery(
    s: Seq<u8>,
    k: int,
    more: Seq<u8>,
    r: Result<Option<SofarMessage<IncomingMessageData>>, DecodeError>,
    rest: Seq<u8>,
)
    requires
        frame_available(s),
        0 <= k < frame_len(s),
    ensures
        !frame_available(s.take(k)),
        decode_step(s.take(k), r, rest) ==> (r matches Ok(None) && rest == s.take(k)),
        s.take(k) + s.skip(k) == s,
        frame_available(s + more),
        frame_len(s + more) == frame_len(s),
        (s + more).take(frame_len(s)) == s.take(frame_len(s)),
        (s + more).skip(frame_len(s)) == s.skip(frame_len(s)) + more,
{
    let p = s.take(k);
    if p.len() >= HEADER_LEN {
        assert(p[1] == s[1] && p[2] == s[2]);
    }
    assert(s.take(k) + s.skip(k) =~= s);
    let t = s + more;
    assert(t[1] == s[1] && t[2] == s[2]);
    assert(t.take(frame_len(s)) =~= s.take(frame_len(s)));
    assert(t.skip(frame_len(s)) =~= s.skip(frame_len(s)) + more);
}

/// `s` with bit `bit` of byte `j` inverted.
pub open spec fn flip_bit(s: Seq<u8>, j: int, bit: u8) -> Seq<u8> {
    s.update(j, s[j] ^ (1u8 << bit))
}

proof fn lemma_flip_changes_by_power(x: u8, bit: u8)
    requires
        bit < 8,
    ensures
        1 <= (1u8 << bit) <= 128,
        (x ^ (1u8 << bit)) as int == x as int + (1u8 << bit) as int || (x ^ (1u8 << bit)) as int
            == x as int - (1u8 << bit) as int,
{
    let m = 1u8 << bit;
    assert(1 <= (1u8 << bit) <= 128) by (bit_vector)
        requires
            bit < 8,
    ;
    assert((x & m) == 0 ==> (x ^ m) == (x | m) && (x | m) >= x && ((x | m) - x) == m)
        by (bit_vector);
    assert((x & m) != 0 ==> (x ^ m) <= x && (x - (x ^ m)) == m) by (bit_vector)
        requires
            m == 1u8 << bit,
            bit < 8,
    ;
}

proof fn lemma_byte_sum_update(s: Seq<u8>, i: int, v: u8)
    requires
        0 <= i < s.len(),
    ensures
        byte_sum(s.update(i, v)) == byte_sum(s) - s[i] + v,
    decreases s.len(),
{
    let u = s.update(i, v);
    if i == s.len() - 1 {
        assert(u.drop_last() =~= s.drop_last());
    } else {
        assert(u.drop_last() =~= s.drop_last().update(i, v));
        lemma_byte_sum_update(s.drop_last(), i, v);
    }
}

/// Flipping any one bit of the body of a frame whose type code is known and
/// whose checksum holds makes that frame fail with a checksum mismatch.
pub proof fn lemma_bit_flip_detected(f: Seq<u8>, j: int, bit: u8)
    requires
        frame_available(f),
        message_type_of(header_of(f).message_type) is Some,
        checksum(f.subrange(1, HEADER_LEN + header_of(f).body_length)) == f[HEADER_LEN
            + header_of(f).body_length],
        HEADER_LEN <= j < HEADER_LEN + header_of(f).body_length,
        bit < 8,
    ensures
        frame_outcome(flip_bit(f, j, bit)) == Err::<MessageView<IncomingView>, DecodeError>(
            DecodeError::ChecksumMismatch(f[HEADER_LEN + header_of(f).body_length]),
        ),
{
    let g = flip_bit(f, j, bit);
    let end = HEADER_LEN + header_of(f).body_length;
    assert(header_of(g) == header_of(f));
    let a = f.subrange(1, end);
    let b = g.subrange(1, end);
    assert(b =~= a.update(j - 1, g[j]));
    lemma_byte_sum_update(a, j - 1, g[j]);
    lemma_flip_changes_by_power(f[j], bit);
    let d = (1u8 << bit) as int;
    let x = byte_sum(a);
    assert(byte_sum(b) == x + d || byte_sum(b) == x - d);
    assert((x + d) % 256 != x % 256 && (x - d) % 256 != x % 256) by (nonlinear_arith)
        requires
            1 <= d <= 128,
    ;
}

/// A whole frame whose type code is not in the table is rejected with that
/// code, and exactly that frame is consumed: the bytes after it stay in
/// place for the next step.
pub proof fn lemma_unknown_type_rejected(
    s: Seq<u8>,
    r: Result<Option<SofarMessage<IncomingMessageData>>, DecodeError>,
    rest: Seq<u8>,
)
    requires
        frame_available(s),
        message_type_of(header_of(s).message_type) is None,
        decode_step(s, r, rest),
    ensures
        r == Err::<Option<SofarMessage<IncomingMessageData>>, DecodeError>(
            DecodeError::UnknownMessageType(header_of(s).message_type),
        ),
        rest == s.skip(frame_len(s)),
{
    let f = s.take(frame_len(s));
    assert(header_of(f) == header_of(s));
}

} // verus!
