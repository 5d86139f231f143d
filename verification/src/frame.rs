//! Wire protocol for the terminal data plane.
//!
//! Frame format: one type byte, a four-byte big-endian payload length, then
//! the payload.  Data frames carry terminal bytes, resize frames two 16-bit
//! dimensions, heartbeats a 32-bit sequence number, error frames a message.

use vstd::prelude::*;
use vstd::string::StringSliceAdditionalSpecFns;
use crate::util::{lossy_string, utf8_lossy_of};

verus! {

/// Header size: one type byte plus four length bytes.
pub const HEADER_SIZE: usize = 5;

/// Maximum payload size: 16 MiB.
pub const MAX_PAYLOAD_SIZE: usize = 16 * 1024 * 1024;

/// Message types of the wire protocol.
#[derive(Debug, Clone, Copy, PartialEq, Eq, Structural)]
pub enum MessageType {
    /// Terminal I/O data.
    Data,
    /// Window resize request (cols, rows).
    Resize,
    /// Keep-alive heartbeat.
    Heartbeat,
    /// Error message.
    Error,
}

impl MessageType {
    /// Parse a message type from its wire byte.
    pub fn from_byte(b: u8) -> (r: Option<Self>)
        ensures
            r == match b {
                0u8 => Some(MessageType::Data),
                1u8 => Some(MessageType::Resize),
                2u8 => Some(MessageType::Heartbeat),
                3u8 => Some(MessageType::Error),
                _ => None::<MessageType>,
            },
    {
        match b {
            0 => Some(Self::Data),
            1 => Some(Self::Resize),
            2 => Some(Self::Heartbeat),
            3 => Some(Self::Error),
            _ => None,
        }
    }

    /// The wire byte of this message type.
    pub fn as_byte(&self) -> (r: u8)
        ensures
            r == match *self {
                MessageType::Data => 0u8,
                MessageType::Resize => 1u8,
                MessageType::Heartbeat => 2u8,
                MessageType::Error => 3u8,
            },
    {
        match self {
            Self::Data => 0,
            Self::Resize => 1,
            Self::Heartbeat => 2,
            Self::Error => 3,
        }
    }
}

/// A parsed protocol frame.
#[derive(Debug, Clone)]
pub enum Frame {
    /// Terminal I/O data.
    Data(Vec<u8>),
    /// Window resize (cols, rows).
    Resize { cols: u16, rows: u16 },
    /// Heartbeat with a sequence number.
    Heartbeat(u32),
    /// Error message.
    Error(String),
}

/// The semantic content of a frame, with text as characters.
pub enum FrameContent {
    DataBytes(Seq<u8>),
    ResizeDims(u16, u16),
    HeartbeatSeq(u32),
    ErrorText(Seq<char>),
}

impl Frame {
    /// The content this frame carries.
    pub open spec fn content(&self) -> FrameContent {
        match *self {
            Frame::Data(ref d) => FrameContent::DataBytes(d@),
            Frame::Resize { cols, rows } => FrameContent::ResizeDims(cols, rows),
            Frame::Heartbeat(n) => FrameContent::HeartbeatSeq(n),
            Frame::Error(ref m) => FrameContent::ErrorText(m@),
        }
    }

    /// The payload fits the length field.
    pub open spec fn wf(&self) -> bool {
        match *self {
            Frame::Data(ref d) => d@.len() <= MAX_PAYLOAD_SIZE,
            Frame::Error(ref m) => vstd::utf8::encode_utf8(m@).len() <= MAX_PAYLOAD_SIZE,
            _ => true,
        }
    }
}

/// Big-endian bytes of a 16-bit value.
pub open spec fn be16(n: int) -> Seq<u8> {
    seq![((n / 256) % 256) as u8, (n % 256) as u8]
}

/// Big-endian bytes of a 32-bit value.
pub open spec fn be32(n: int) -> Seq<u8> {
    seq![
        ((n / 0x1000000) % 256) as u8,
        ((n / 0x10000) % 256) as u8,
        ((n / 0x100) % 256) as u8,
        (n % 256) as u8,
    ]
}

/// The value of four big-endian bytes.
pub open spec fn from_be32(b0: u8, b1: u8, b2: u8, b3: u8) -> int {
    b0 * 0x1000000 + b1 * 0x10000 + b2 * 0x100 + b3
}

/// The value of two big-endian bytes.
pub open spec fn from_be16(b0: u8, b1: u8) -> int {
    b0 * 256 + b1
}

/// Reading back the big-endian bytes of a 32-bit value gives the value.
pub proof fn lemma_be32_roundtrip(n: int)
    requires
        0 <= n <= 0xFFFFFFFF,
    ensures
        from_be32(be32(n)[0], be32(n)[1], be32(n)[2], be32(n)[3]) == n,
{
    let x = n as u32;
    assert(x == ((x / 0x1000000) % 256) * 0x1000000 + ((x / 0x10000) % 256) * 0x10000 + ((x
        / 0x100) % 256) * 0x100 + (x % 256)) by (bit_vector);
}

/// Reading back the big-endian bytes of a 16-bit value gives the value.
pub proof fn lemma_be16_roundtrip(n: int)
    requires
        0 <= n <= 0xFFFF,
    ensures
        from_be16(be16(n)[0], be16(n)[1]) == n,
{
    let x = n as u16;
    assert(x == ((x / 256) % 256) * 256 + (x % 256)) by (bit_vector);
}

/// The exact wire bytes of a frame: type byte, big-endian payload length,
/// payload.
pub open spec fn frame_bytes(f: Frame) -> Seq<u8> {
    match f {
        Frame::Data(d) => seq![0u8] + be32(d@.len() as int) + d@,
        Frame::Resize { cols, rows } => seq![1u8] + be32(4) + be16(cols as int) + be16(
            rows as int,
        ),
        Frame::Heartbeat(n) => seq![2u8] + be32(4) + be32(n as int),
        Frame::Error(m) => seq![3u8] + be32(vstd::utf8::encode_utf8(m@).len() as int) + vstd::utf8::encode_utf8(m@),
    }
}

/// Push the big-endian bytes of a 32-bit value.
fn push_be32(out: &mut Vec<u8>, n: u32)
    ensures
        final(out)@ == old(out)@ + be32(n as int),
{
    out.push((n / 0x1000000 % 256) as u8);
    out.push((n / 0x10000 % 256) as u8);
    out.push((n / 0x100 % 256) as u8);
    out.push((n % 256) as u8);
    proof {
        assert(out@ =~= old(out)@ + be32(n as int));
    }
}

/// Push the big-endian bytes of a 16-bit value.
fn push_be16(out: &mut Vec<u8>, n: u16)
    ensures
        final(out)@ == old(out)@ + be16(n as int),
{
    out.push((n / 256 % 256) as u8);
    out.push((n % 256) as u8);
    proof {
        assert(out@ =~= old(out)@ + be16(n as int));
    }
}

/// Errors a malformed byte stream can produce while decoding.
#[derive(Debug, Clone, PartialEq, Eq)]
pub enum FrameDecodeError {
    /// The length field exceeds the payload cap.
    PayloadTooLarge(u64),
    /// The type byte is not a known message type.
    UnknownType(u8),
    /// A resize or heartbeat frame whose payload is not 4 bytes.
    BadFixedLength(u64),
}

impl Frame {
    /// Encode this frame into its wire bytes.
    pub fn encode(&self) -> (r: Vec<u8>)
        requires
            self.wf(),
        ensures
            r@ == frame_bytes(*self),
    {
        let mut out: Vec<u8> = Vec::new();
        match self {
            Frame::Data(d) => {
                out.push(0);
                proof {
                    assert(out@ =~= seq![0u8]);
                }
                push_be32(&mut out, d.len() as u32);
                out.extend_from_slice(d.as_slice());
                proof {
                    assert(out@ =~= seq![0u8] + be32(d@.len() as int) + d@);
                }
            },
            Frame::Resize { cols, rows } => {
                out.push(1);
                proof {
                    assert(out@ =~= seq![1u8]);
                }
                push_be32(&mut out, 4);
                push_be16(&mut out, *cols);
                push_be16(&mut out, *rows);
                proof {
                    assert(out@ =~= seq![1u8] + be32(4) + be16(*cols as int) + be16(
                        *rows as int,
                    ));
                }
            },
            Frame::Heartbeat(n) => {
                out.push(2);
                proof {
                    assert(out@ =~= seq![2u8]);
                }
                push_be32(&mut out, 4);
                push_be32(&mut out, *n);
                proof {
                    assert(out@ =~= seq![2u8] + be32(4) + be32(*n as int));
                }
            },
            Frame::Error(m) => {
                out.push(3);
                proof {
                    assert(out@ =~= seq![3u8]);
                }
                let bytes = m.as_str().as_bytes();
                push_be32(&mut out, bytes.len() as u32);
                out.extend_from_slice(bytes);
                proof {
                    assert(out@ =~= seq![3u8] + be32(vstd::utf8::encode_utf8(m@).len() as int)
                        + vstd::utf8::encode_utf8(m@));
                }
            },
        }
        out
    }
}

/// What decoding sees in a byte sequence.
pub enum SpecDecoded {
    /// Not enough bytes for a header or a full frame yet.
    NeedMore,
    /// A malformed frame: the stated error.
    Corrupt(FrameDecodeError),
    /// A complete frame: its content and the bytes that follow it.
    Complete(FrameContent, Seq<u8>),
}

/// The text an error payload decodes to: valid UTF-8 passes through, the
/// rest goes through the lossy decoding.
pub open spec fn text_of_payload(payload: Seq<u8>) -> Seq<char> {
    if vstd::utf8::valid_utf8(payload) {
        vstd::utf8::decode_utf8(payload)
    } else {
        utf8_lossy_of(payload)
    }
}

/// The decoding function of the wire format, over the buffered bytes.
pub open spec fn spec_decode(b: Seq<u8>) -> SpecDecoded {
    if b.len() < 5 {
        SpecDecoded::NeedMore
    } else {
        let len = from_be32(b[1], b[2], b[3], b[4]);
        if len > MAX_PAYLOAD_SIZE {
            SpecDecoded::Corrupt(FrameDecodeError::PayloadTooLarge(len as u64))
        } else if b.len() < 5 + len {
            SpecDecoded::NeedMore
        } else {
            let payload = b.subrange(5, 5 + len);
            let rest = b.skip(5 + len);
            if b[0] == 0 {
                SpecDecoded::Complete(FrameContent::DataBytes(payload), rest)
            } else if b[0] == 1 {
                if len != 4 {
                    SpecDecoded::Corrupt(FrameDecodeError::BadFixedLength(len as u64))
                } else {
                    SpecDecoded::Complete(
                        FrameContent::ResizeDims(
                            from_be16(payload[0], payload[1]) as u16,
                            from_be16(payload[2], payload[3]) as u16,
                        ),
                        rest,
                    )
                }
            } else if b[0] == 2 {
                if len != 4 {
                    SpecDecoded::Corrupt(FrameDecodeError::BadFixedLength(len as u64))
                } else {
                    SpecDecoded::Complete(
                        FrameContent::HeartbeatSeq(
                            from_be32(payload[0], payload[1], payload[2], payload[3]) as u32,
                        ),
                        rest,
                    )
                }
            } else if b[0] == 3 {
                SpecDecoded::Complete(FrameContent::ErrorText(text_of_payload(payload)), rest)
            } else {
                SpecDecoded::Corrupt(FrameDecodeError::UnknownType(b[0]))
            }
        }
    }
}

impl Frame {
    /// Try to decode one frame from the front of `buf`.  `Ok(None)` means
    /// not enough data yet and leaves the buffer alone; a decoded frame
    /// consumes its bytes; a malformed header is an error.
    pub fn decode(buf: &mut Vec<u8>) -> (r: Result<Option<Frame>, FrameDecodeError>)
        ensures
            match r {
                Ok(None) => spec_decode(old(buf)@) is NeedMore && *final(buf) == *old(buf),
                Ok(Some(f)) => spec_decode(old(buf)@) matches SpecDecoded::Complete(c, rest)
                    && f.content() == c && final(buf)@ == rest,
                Err(e) => spec_decode(old(buf)@) == SpecDecoded::Corrupt(e) && *final(buf)
                    == *old(buf),
            },
    {
        if buf.len() < 5 {
            return Ok(None);
        }
        let b0 = buf[1];
        let b1 = buf[2];
        let b2 = buf[3];
        let b3 = buf[4];
        let len: usize = (b0 as usize) * 0x1000000 + (b1 as usize) * 0x10000 + (b2 as usize)
            * 0x100 + (b3 as usize);
        if len > MAX_PAYLOAD_SIZE {
            return Err(FrameDecodeError::PayloadTooLarge(len as u64));
        }
        if buf.len() < 5 + len {
            return Ok(None);
        }
        let ty = buf[0];
        if ty > 3 {
            return Err(FrameDecodeError::UnknownType(ty));
        }
        if (ty == 1 || ty == 2) && len != 4 {
            return Err(FrameDecodeError::BadFixedLength(len as u64));
        }
        let payload = vstd::slice::slice_to_vec(
            vstd::slice::slice_subrange(buf.as_slice(), 5, 5 + len),
        );
        let rest = vstd::slice::slice_to_vec(
            vstd::slice::slice_subrange(buf.as_slice(), 5 + len, buf.len()),
        );
        proof {
            assert(payload@ =~= old(buf)@.subrange(5, 5 + len as int));
            assert(rest@ =~= old(buf)@.skip(5 + len as int));
        }
        let frame = if ty == 0 {
            Frame::Data(payload)
        } else if ty == 1 {
            let cols = (payload[0] as u16) * 256 + (payload[1] as u16);
            let rows = (payload[2] as u16) * 256 + (payload[3] as u16);
            Frame::Resize { cols, rows }
        } else if ty == 2 {
            let n = (payload[0] as u32) * 0x1000000 + (payload[1] as u32) * 0x10000 + (
            payload[2] as u32) * 0x100 + (payload[3] as u32);
            Frame::Heartbeat(n)
        } else {
            Frame::Error(lossy_string(payload.as_slice()))
        };
        *buf = rest;
        Ok(Some(frame))
    }
}

/// Streaming decoder: feed raw bytes in, take frames out.
pub struct FrameCodec {
    buffer: Vec<u8>,
}

impl FrameCodec {
    /// The bytes fed and not yet decoded.
    pub closed spec fn view_bytes(&self) -> Seq<u8> {
        self.buffer@
    }

    /// An empty codec.
    pub fn new() -> (r: Self)
        ensures
            r.view_bytes() =~= Seq::<u8>::empty(),
    {
        FrameCodec { buffer: Vec::new() }
    }

    /// Feed raw bytes into the codec.
    pub fn feed(&mut self, data: &[u8])
        ensures
            final(self).view_bytes() == old(self).view_bytes() + data@,
    {
        self.buffer.extend_from_slice(data);
        proof {
            assert(self.buffer@ =~= old(self).buffer@ + data@);
        }
    }

    /// Try to decode the next frame.
    pub fn decode_next(&mut self) -> (r: Result<Option<Frame>, FrameDecodeError>)
        ensures
            match r {
                Ok(None) => spec_decode(old(self).view_bytes()) is NeedMore && *final(self)
                    == *old(self),
                Ok(Some(f)) => spec_decode(old(self).view_bytes()) matches
                    SpecDecoded::Complete(c, rest) && f.content() == c && final(self).view_bytes() == rest,
                Err(e) => spec_decode(old(self).view_bytes()) == SpecDecoded::Corrupt(e)
                    && *final(self) == *old(self),
            },
    {
        Frame::decode(&mut self.buffer)
    }

    /// Drop all buffered bytes.
    pub fn clear(&mut self)
        ensures
            final(self).view_bytes() =~= Seq::<u8>::empty(),
    {
        self.buffer.clear();
    }

    /// Whether the buffer has grown past the payload cap: a sign of a
    /// malformed stream.
    pub fn is_overflow(&self) -> (r: bool)
        ensures
            r == (self.view_bytes().len() > MAX_PAYLOAD_SIZE),
    {
        self.buffer.len() > MAX_PAYLOAD_SIZE
    }

    /// Number of buffered bytes.
    pub fn buffer_len(&self) -> (r: usize)
        ensures
            r == self.view_bytes().len(),
    {
        self.buffer.len()
    }
}

/// A data frame from raw bytes.
pub fn data_frame(data: Vec<u8>) -> (r: Frame)
    ensures
        r == Frame::Data(data),
{
    Frame::Data(data)
}

/// A resize frame.
pub fn resize_frame(cols: u16, rows: u16) -> (r: Frame)
    ensures
        r == (Frame::Resize { cols, rows }),
{
    Frame::Resize { cols, rows }
}

/// A heartbeat frame.
pub fn heartbeat_frame(seq_no: u32) -> (r: Frame)
    ensures
        r == Frame::Heartbeat(seq_no),
{
    Frame::Heartbeat(seq_no)
}

/// An error frame.
pub fn error_frame(msg: &str) -> (r: Frame)
    ensures
        r matches Frame::Error(m) && m@ == msg@,
{
    Frame::Error(msg.to_owned())
}

/// Law: the wire format round-trips.  Decoding the encoding of any
/// well-formed frame, followed by any further bytes, yields exactly that
/// frame's content and leaves exactly the further bytes.
pub proof fn lemma_frame_roundtrip(f: Frame, rest: Seq<u8>)
    requires
        f.wf(),
    ensures
        spec_decode(frame_bytes(f) + rest) == SpecDecoded::Complete(f.content(), rest),
{
    let b = frame_bytes(f) + rest;
    match f {
        Frame::Data(d) => {
            let n = d@.len() as int;
            lemma_be32_roundtrip(n);
            assert(b[1] == be32(n)[0] && b[2] == be32(n)[1] && b[3] == be32(n)[2] && b[4]
                == be32(n)[3]);
            assert(from_be32(b[1], b[2], b[3], b[4]) == n);
            assert(b.subrange(5, 5 + n) =~= d@);
            assert(b.skip(5 + n) =~= rest);
        },
        Frame::Resize { cols, rows } => {
            lemma_be32_roundtrip(4);
            assert(from_be32(b[1], b[2], b[3], b[4]) == 4);
            let payload = b.subrange(5, 9);
            assert(payload =~= be16(cols as int) + be16(rows as int));
            lemma_be16_roundtrip(cols as int);
            lemma_be16_roundtrip(rows as int);
            assert(from_be16(payload[0], payload[1]) == cols as int);
            assert(from_be16(payload[2], payload[3]) == rows as int);
            assert(b.skip(9) =~= rest);
        },
        Frame::Heartbeat(n) => {
            lemma_be32_roundtrip(4);
            assert(from_be32(b[1], b[2], b[3], b[4]) == 4);
            let payload = b.subrange(5, 9);
            assert(payload =~= be32(n as int));
            lemma_be32_roundtrip(n as int);
            assert(from_be32(payload[0], payload[1], payload[2], payload[3]) == n as int);
            assert(b.skip(9) =~= rest);
        },
        Frame::Error(m) => {
            let n = vstd::utf8::encode_utf8(m@).len() as int;
            lemma_be32_roundtrip(n);
            assert(from_be32(b[1], b[2], b[3], b[4]) == n);
            assert(b.subrange(5, 5 + n) =~= vstd::utf8::encode_utf8(m@));
            broadcast use vstd::utf8::encode_utf8_valid_utf8, vstd::utf8::encode_utf8_decode_utf8;

            assert(vstd::utf8::valid_utf8(vstd::utf8::encode_utf8(m@)));
            assert(text_of_payload(vstd::utf8::encode_utf8(m@)) == m@);
            assert(b.skip(5 + n) =~= rest);
        },
    }
}

} // verus!
