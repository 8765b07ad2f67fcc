//! The length-prefixed wire format and the one-frame decode step.
//!
//! A frame is a 5-byte header — one compression flag byte, then a big-endian
//! unsigned 32-bit payload length — followed by exactly that many payload
//! bytes.  `payloads_of` is the mathematical reading of a byte sequence as
//! the payloads of its complete, uncompressed frames; `decode_chunk` is the
//! executable step that consumes at most one such frame from the
//! accumulation buffer.

use vstd::prelude::*;

use vstd::string::StringExecFns;

use crate::buffer::{buf_advance, buf_byte, buf_bytes, buf_len, buf_take};
use crate::status::{spec_u8_decimal, u8_decimal, Code, GrpcStatus};

verus! {

/// The message of the failure a frame with an unknown compression flag is
/// rejected with: it names the offending value.
pub open spec fn spec_flag_message(f: u8) -> Seq<char> {
    "Unexpected compression flag: "@ + spec_u8_decimal(f)
}

/// The payload length a frame header declares: bytes 1 to 4, big-endian.
pub open spec fn be_len(s: Seq<u8>) -> int {
    (s[1] as int) * 0x100_0000 + (s[2] as int) * 0x1_0000 + (s[3] as int) * 0x100 + (s[4] as int)
}

/// How the head of a byte sequence reads as a frame.
pub enum FrameClass {
    /// Too few bytes for a header, or for the payload the header declares.
    NeedMore,
    /// The compression flag says compressed, which the decoder does not
    /// support.
    Compressed,
    /// The compression flag holds a value other than 0 or 1.
    BadFlag,
    /// A full uncompressed frame is available.
    Complete,
}

/// Classifies the head of a byte sequence.
pub open spec fn classify(s: Seq<u8>) -> FrameClass {
    if s.len() < 5 {
        FrameClass::NeedMore
    } else if s[0] == 1 {
        FrameClass::Compressed
    } else if s[0] != 0 {
        FrameClass::BadFlag
    } else if s.len() < 5 + be_len(s) {
        FrameClass::NeedMore
    } else {
        FrameClass::Complete
    }
}

/// The payload of the complete frame at the head of `s`.
pub open spec fn frame_payload(s: Seq<u8>) -> Seq<u8> {
    s.subrange(5, 5 + be_len(s))
}

/// What follows the complete frame at the head of `s`.
pub open spec fn frame_rest(s: Seq<u8>) -> Seq<u8> {
    s.skip(5 + be_len(s))
}

/// The payloads of the complete, uncompressed frames at the head of `s`, in
/// order.  Reading stops at the first incomplete frame or rejected flag.
pub open spec fn payloads_of(s: Seq<u8>) -> Seq<Seq<u8>>
    decreases s.len(),
{
    if classify(s) is Complete {
        seq![frame_payload(s)] + payloads_of(frame_rest(s))
    } else {
        Seq::empty()
    }
}

/// The bytes left over once the complete frames at the head of `s` are
/// removed.
pub open spec fn residue_of(s: Seq<u8>) -> Seq<u8>
    decreases s.len(),
{
    if classify(s) is Complete {
        residue_of(frame_rest(s))
    } else {
        s
    }
}

/// `s` is exactly a concatenation of complete, uncompressed frames.
pub open spec fn aligned(s: Seq<u8>) -> bool {
    residue_of(s).len() == 0
}

/// Reading frames out of a byte sequence is compositional: whatever is
/// appended after a frame-aligned prefix parses on its own.
pub proof fn lemma_parse_append(c: Seq<u8>, t: Seq<u8>)
    requires
        aligned(c),
    ensures
        payloads_of(c + t) == payloads_of(c) + payloads_of(t),
        residue_of(c + t) == residue_of(t),
    decreases c.len(),
{
    if c.len() == 0 {
        assert(c + t =~= t);
        assert(payloads_of(c) + payloads_of(t) =~= payloads_of(t));
    } else {
        match classify(c) {
            FrameClass::Complete => {
                assert(classify(c + t) is Complete);
                assert(frame_payload(c + t) =~= frame_payload(c));
                assert(frame_rest(c + t) =~= frame_rest(c) + t);
                lemma_parse_append(frame_rest(c), t);
                assert(payloads_of(c + t) =~= payloads_of(c) + payloads_of(t));
            },
            _ => {
                assert(residue_of(c) == c);
                assert(false);
            },
        }
    }
}

/// The decoder's position between frames: either no header of the current
/// message has been parsed yet, or a header has been parsed and `len` more
/// payload bytes are awaited.
#[derive(Clone, Copy, Debug)]
pub enum DecodeState {
    AwaitingHeader,
    AwaitingBody { compressed: bool, len: u32 },
}

/// What the decode state may say about the buffer it was parsed from: a
/// parsed header still sits at the head of the buffer, its flag was 0, and
/// its declared length is `len`.
pub open spec fn state_wf(st: DecodeState, b: Seq<u8>) -> bool {
    match st {
        DecodeState::AwaitingHeader => true,
        DecodeState::AwaitingBody { compressed, len } => !compressed && b.len() >= 5 && b[0] == 0
            && be_len(b) == len,
    }
}

/// Attempts to decode one frame from the accumulation buffer.
///
/// The step never suspends and never touches the byte source: it works on
/// the buffered bytes alone.  Exactly one of four things happens, decided by
/// `classify` of the buffer contents: too few bytes leave the buffer
/// untouched and return no payload; a compressed frame fails with
/// `Unimplemented`; an unknown flag fails with `Internal`; a complete frame
/// is consumed from the head of the buffer and its payload handed out.
pub fn decode_chunk(state: &mut DecodeState, buf: &mut bytes::BytesMut) -> (r: Result<
    Option<Vec<u8>>,
    GrpcStatus,
>)
    requires
        state_wf(*old(state), buf_bytes(*old(buf))),
    ensures
        state_wf(*final(state), buf_bytes(*final(buf))),
        classify(buf_bytes(*old(buf))) is NeedMore ==> r == Ok::<Option<Vec<u8>>, GrpcStatus>(None)
            && buf_bytes(*final(buf)) == buf_bytes(*old(buf)),
        buf_bytes(*old(buf)).len() < 5 ==> *final(state) == *old(state),
        classify(buf_bytes(*old(buf))) is NeedMore && buf_bytes(*old(buf)).len() >= 5
            ==> (*final(state) matches DecodeState::AwaitingBody { compressed, len } && !compressed
            && len as int == be_len(buf_bytes(*old(buf)))),
        classify(buf_bytes(*old(buf))) is Compressed ==> (r matches Err(st) && st.code
            == Code::Unimplemented && st.message@
            == "Message compressed, compression not supported yet."@) && buf_bytes(*final(buf))
            == buf_bytes(*old(buf)) && *final(state) == *old(state),
        classify(buf_bytes(*old(buf))) is BadFlag ==> (r matches Err(st) && st.code
            == Code::Internal && st.message@ == spec_flag_message(buf_bytes(*old(buf))[0]))
            && buf_bytes(*final(buf)) == buf_bytes(*old(buf)) && *final(state) == *old(state),
        classify(buf_bytes(*old(buf))) is Complete ==> (r matches Ok(p) && p matches Some(v) && v@
            == frame_payload(buf_bytes(*old(buf)))) && buf_bytes(*final(buf)) == frame_rest(
            buf_bytes(*old(buf)),
        ) && *final(state) is AwaitingHeader,
{
    let len_u32: u32;
    match *state {
        DecodeState::AwaitingHeader => {
            if buf_len(buf) < 5 {
                return Ok(None);
            }
            let flag = buf_byte(buf, 0);
            if flag == 1 {
                return Err(
                    GrpcStatus::new(
                        Code::Unimplemented,
                        "Message compressed, compression not supported yet.".to_string(),
                    ),
                );
            }
            if flag != 0 {
                let mut msg = "Unexpected compression flag: ".to_string();
                msg.append(u8_decimal(flag).as_str());
                return Err(GrpcStatus::new(Code::Internal, msg));
            }
            let b1 = buf_byte(buf, 1);
            let b2 = buf_byte(buf, 2);
            let b3 = buf_byte(buf, 3);
            let b4 = buf_byte(buf, 4);
            len_u32 = (b1 as u32) * 0x100_0000 + (b2 as u32) * 0x1_0000 + (b3 as u32) * 0x100 + (
            b4 as u32);
            *state = DecodeState::AwaitingBody { compressed: false, len: len_u32 };
        },
        DecodeState::AwaitingBody { len, .. } => {
            len_u32 = len;
        },
    }
    let blen = buf_len(buf);
    if blen - 5 < len_u32 as usize {
        return Ok(None);
    }
    buf_advance(buf, 5);
    let payload = buf_take(buf, len_u32 as usize);
    *state = DecodeState::AwaitingHeader;
    proof {
        let b = buf_bytes(*old(buf));
        assert(payload@ =~= frame_payload(b));
        assert(buf_bytes(*final(buf)) =~= frame_rest(b));
    }
    Ok(Some(payload))
}

/// The header-plus-payload encoding of one message payload.
pub open spec fn frame_bytes(p: Seq<u8>) -> Seq<u8> {
    seq![
        0u8,
        (((p.len() as int) / 0x100_0000) % 0x100) as u8,
        (((p.len() as int) / 0x1_0000) % 0x100) as u8,
        (((p.len() as int) / 0x100) % 0x100) as u8,
        ((p.len() as int) % 0x100) as u8,
    ] + p
}

/// The concatenated encoding of a sequence of message payloads.
pub open spec fn frames_bytes(ps: Seq<Seq<u8>>) -> Seq<u8>
    decreases ps.len(),
{
    if ps.len() == 0 {
        Seq::empty()
    } else {
        frame_bytes(ps[0]) + frames_bytes(ps.skip(1))
    }
}

/// Encodes one message payload as a frame, the reference encoder for the
/// wire format.
pub fn encode_frame(payload: &Vec<u8>) -> (r: Vec<u8>)
    requires
        payload@.len() < 0x1_0000_0000,
    ensures
        r@ == frame_bytes(payload@),
{
    let n = payload.len();
    let mut r: Vec<u8> = Vec::new();
    r.push(0u8);
    r.push(((n / 0x100_0000) % 0x100) as u8);
    r.push(((n / 0x1_0000) % 0x100) as u8);
    r.push(((n / 0x100) % 0x100) as u8);
    r.push((n % 0x100) as u8);
    let mut i: usize = 0;
    while i < payload.len()
        invariant
            i <= payload@.len(),
            n == payload@.len(),
            r@ == frame_bytes(payload@).take(5 + i as int),
        decreases payload@.len() - i,
    {
        r.push(payload[i]);
        proof {
            assert(r@ =~= frame_bytes(payload@).take(5 + i as int + 1));
        }
        i = i + 1;
    }
    proof {
        assert(r@ =~= frame_bytes(payload@));
    }
    r
}

/// One encoded frame reads back as exactly its payload, with nothing left
/// over.
pub proof fn lemma_frame_bytes_parses(p: Seq<u8>)
    requires
        p.len() < 0x1_0000_0000,
    ensures
        payloads_of(frame_bytes(p)) == seq![p],
        aligned(frame_bytes(p)),
{
    let f = frame_bytes(p);
    let n = p.len() as int;
    let nv = p.len() as u32;
    assert(f.len() == 5 + p.len());
    assert(f[0] == 0);
    assert(((nv / 0x100_0000) % 0x100) * 0x100_0000 + ((nv / 0x1_0000) % 0x100) * 0x1_0000 + ((nv
        / 0x100) % 0x100) * 0x100 + (nv % 0x100) == nv) by (bit_vector);
    assert(be_len(f) == n);
    assert(classify(f) is Complete);
    assert(frame_payload(f) =~= p);
    assert(frame_rest(f) =~= Seq::<u8>::empty());
    assert(payloads_of(Seq::<u8>::empty()) =~= Seq::<Seq<u8>>::empty());
    assert(residue_of(Seq::<u8>::empty()) =~= Seq::<u8>::empty());
    assert(payloads_of(f) =~= seq![p]);
    assert(residue_of(f) == residue_of(frame_rest(f)));
}

/// Round trip: the encoding of any sequence of messages decodes back to
/// exactly those messages, with nothing left over.
pub proof fn lemma_round_trip(ps: Seq<Seq<u8>>)
    requires
        forall|i: int| 0 <= i < ps.len() ==> #[trigger] ps[i].len() < 0x1_0000_0000,
    ensures
        payloads_of(frames_bytes(ps)) == ps,
        aligned(frames_bytes(ps)),
    decreases ps.len(),
{
    if ps.len() == 0 {
        assert(payloads_of(frames_bytes(ps)) =~= ps);
    } else {
        lemma_frame_bytes_parses(ps[0]);
        lemma_round_trip(ps.skip(1));
        lemma_parse_append(frame_bytes(ps[0]), frames_bytes(ps.skip(1)));
        assert(payloads_of(frames_bytes(ps)) =~= ps);
    }
}

/// A header whose compression flag says compressed is always rejected,
/// whatever follows it.
pub proof fn lemma_compressed_flag_rejected(b: Seq<u8>)
    requires
        b.len() >= 5,
        b[0] == 1,
    ensures
        classify(b) is Compressed,
{
}

/// A header whose compression flag holds any value other than 0 or 1 is
/// always rejected, whatever follows it.
pub proof fn lemma_invalid_flag_rejected(b: Seq<u8>)
    requires
        b.len() >= 5,
        b[0] != 0,
        b[0] != 1,
    ensures
        classify(b) is BadFlag,
{
}

} // verus!
