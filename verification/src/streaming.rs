//! The message stream: a state machine that turns the chunks of a byte
//! source into decoded messages and a terminal outcome.
//!
//! The byte source and the scheduler live outside the library.  Whatever
//! drives the stream feeds it one event at a time — a consumer ask, a chunk,
//! the end of the source, the trailing metadata, or a transport failure —
//! and performs what the returned step asks for next.  All decisions (frame
//! boundaries, error classification, trailer inference, termination) are
//! made here.

use vstd::prelude::*;

use crate::buffer::{buf_append, buf_bytes, buf_len, buf_new};
use crate::frame::{
    aligned, be_len, classify, decode_chunk, frame_payload, frame_rest, lemma_parse_append,
    payloads_of, residue_of, state_wf, DecodeState, FrameClass,
};
use crate::status::{infer_grpc_status, spec_infer, Code, GrpcStatus, Trailers};

verus! {

/// A message codec: turns the payload bytes of one complete frame into one
/// decoded message.  Implementations are supplied by the user of the
/// library; a codec that reports no message or an error ends the stream.
pub trait Decoder {
    type Item;

    /// Decodes one message from the payload of one complete frame.
    fn decode(&mut self, payload: Vec<u8>) -> Result<Option<Self::Item>, GrpcStatus>;
}

/// A codec whose messages are the raw payload bytes themselves.
pub struct RawCodec;

impl Decoder for RawCodec {
    type Item = Vec<u8>;

    fn decode(&mut self, payload: Vec<u8>) -> (r: Result<Option<Vec<u8>>, GrpcStatus>)
        ensures
            r == Ok::<Option<Vec<u8>>, GrpcStatus>(Some(payload)),
    {
        Ok(Some(payload))
    }
}

/// Which side of the exchange the stream represents.  Fixed at construction.
#[derive(Clone, Copy, Debug, PartialEq, Eq, Structural)]
pub enum Direction {
    /// A client-to-server message stream: no trailer-derived status check.
    Request,
    /// A server-to-client message stream: after the body ends cleanly, the
    /// trailing metadata is converted into the final outcome, judged against
    /// the transport-level response status it arrived with.
    Response { http_status: u16 },
    /// A response whose body carries no messages, only the terminal check.
    EmptyResponse,
}

/// Where the stream stands in its life.
#[derive(Clone, Copy, Debug, PartialEq, Eq, Structural)]
pub enum Phase {
    /// Messages are still being read from the body.
    Body,
    /// The body ended cleanly; the trailing metadata is awaited.
    AwaitTrailers,
    /// The stream has ended and reports nothing further.
    Done,
}

/// One thing the outside world reports to the stream.
pub enum StreamEvent {
    /// The consumer asks for the next item; nothing new arrived.
    Ask,
    /// The byte source delivered one chunk of the body.
    Chunk(Vec<u8>),
    /// The byte source is exhausted; no further chunks will come.
    SourceEnd,
    /// The byte source failed at the transport level.
    SourceError(String),
    /// The trailing metadata arrived, or the source has none.
    TrailersReady(Option<Trailers>),
    /// Fetching the trailing metadata failed at the transport level.
    TrailersFailed(String),
}

/// What one step of the stream produced, or what it needs next.
pub enum StreamStep<T> {
    /// One decoded message, in stream order.
    Item(T),
    /// The terminal failure of the stream; only `Finished` follows it.
    Failure(GrpcStatus),
    /// The stream has ended; repeated asks keep reporting this.
    Finished,
    /// Feed the next chunk of the body, its end, or its error.
    NeedChunk,
    /// Feed the trailing metadata or its error.
    NeedTrailers,
}

/// The step a stream takes for each answer the codec can give on one
/// complete frame: a decoded message is yielded as the next item, a codec
/// error comes back unchanged as the terminal failure, and a codec that
/// reports no message for a complete frame — whose full payload was already
/// buffered — is itself a violation, reported as an `Internal` failure
/// rather than silently stalling the stream.
pub fn step_of_codec_answer<T>(answer: Result<Option<T>, GrpcStatus>) -> (r: StreamStep<T>)
    ensures
        match answer {
            Ok(o) => match o {
                Some(m) => r matches StreamStep::Item(x) && x == m,
                None => r matches StreamStep::Failure(st) && st.code == Code::Internal
                    && st.message@
                    == "Message decoder produced no message for a complete frame."@,
            },
            Err(e) => r matches StreamStep::Failure(st) && st == e,
        },
{
    match answer {
        Ok(Some(item)) => StreamStep::Item(item),
        Ok(None) => StreamStep::Failure(
            GrpcStatus::new(
                Code::Internal,
                "Message decoder produced no message for a complete frame.".to_string(),
            ),
        ),
        Err(st) => StreamStep::Failure(st),
    }
}

/// The bytes an event delivers to the accumulation buffer.
pub open spec fn event_bytes(ev: StreamEvent) -> Seq<u8> {
    match ev {
        StreamEvent::Chunk(d) => d@,
        _ => Seq::<u8>::empty(),
    }
}

/// The message stream of one call: an accumulation buffer, the decode state,
/// the direction, and the codec, driven to completion by events.
pub struct Streaming<D: Decoder> {
    decoder: D,
    state: DecodeState,
    direction: Direction,
    buf: bytes::BytesMut,
    phase: Phase,
    trailer_meta: Option<Trailers>,
    consumed: Ghost<Seq<u8>>,
    handed: Ghost<Seq<Seq<u8>>>,
}

impl<D: Decoder> Streaming<D> {
    /// Every byte the byte source has delivered to this stream, in order.
    pub closed spec fn fed(&self) -> Seq<u8> {
        self.consumed@ + buf_bytes(self.buf)
    }

    /// The payloads of the frames handed to the codec so far, in order.
    pub closed spec fn delivered(&self) -> Seq<Seq<u8>> {
        self.handed@
    }

    /// The bytes delivered but not yet consumed as frames.
    pub closed spec fn buffered(&self) -> Seq<u8> {
        buf_bytes(self.buf)
    }

    /// Nothing is sitting in the accumulation buffer.
    pub open spec fn drained(&self) -> bool {
        self.buffered().len() == 0
    }

    pub closed spec fn phase(&self) -> Phase {
        self.phase
    }

    pub closed spec fn direction(&self) -> Direction {
        self.direction
    }

    /// The trailing metadata the stream has received, if any yet.
    pub closed spec fn trailers_seen(&self) -> Option<Trailers> {
        self.trailer_meta
    }

    /// The invariant every constructor establishes and every step keeps: the
    /// decode state describes the head of the buffer; the bytes already
    /// consumed are exactly the frames whose payloads went to the codec; and
    /// the trailer phase is reached only on a response stream with an empty
    /// buffer.
    pub closed spec fn wf(&self) -> bool {
        &&& state_wf(self.state, buf_bytes(self.buf))
        &&& aligned(self.consumed@)
        &&& self.handed@ == payloads_of(self.consumed@)
        &&& (self.phase is AwaitTrailers ==> self.buffered().len() == 0 && (
        self.direction matches Direction::Response { .. }))
    }

    fn make(decoder: D, direction: Direction) -> (r: Streaming<D>)
        ensures
            r.wf(),
            r.phase() is Body,
            r.direction() == direction,
            r.fed() == Seq::<u8>::empty(),
            r.delivered() == Seq::<Seq<u8>>::empty(),
            r.buffered() == Seq::<u8>::empty(),
            r.trailers_seen() is None,
    {
        let buf = buf_new();
        proof {
            assert(payloads_of(Seq::<u8>::empty()) =~= Seq::<Seq<u8>>::empty());
            assert(residue_of(Seq::<u8>::empty()) =~= Seq::<u8>::empty());
            assert(Seq::<u8>::empty() + Seq::<u8>::empty() =~= Seq::<u8>::empty());
        }
        Streaming {
            decoder,
            state: DecodeState::AwaitingHeader,
            direction,
            buf,
            phase: Phase::Body,
            trailer_meta: None,
            consumed: Ghost(Seq::empty()),
            handed: Ghost(Seq::empty()),
        }
    }

    /// A server-to-client message stream: after its body ends cleanly, the
    /// trailing metadata decides the final outcome.
    pub fn new_response(decoder: D, http_status: u16) -> (r: Streaming<D>)
        ensures
            r.wf(),
            r.phase() is Body,
            r.direction() == (Direction::Response { http_status }),
            r.fed() == Seq::<u8>::empty(),
            r.delivered() == Seq::<Seq<u8>>::empty(),
            r.buffered() == Seq::<u8>::empty(),
            r.trailers_seen() is None,
    {
        Self::make(decoder, Direction::Response { http_status })
    }

    /// A response stream whose body carries no messages.
    pub fn new_empty(decoder: D) -> (r: Streaming<D>)
        ensures
            r.wf(),
            r.phase() is Body,
            r.direction() is EmptyResponse,
            r.fed() == Seq::<u8>::empty(),
            r.delivered() == Seq::<Seq<u8>>::empty(),
            r.buffered() == Seq::<u8>::empty(),
            r.trailers_seen() is None,
    {
        Self::make(decoder, Direction::EmptyResponse)
    }

    /// A client-to-server message stream: it ends with the body, with no
    /// trailer check.
    pub fn new_request(decoder: D) -> (r: Streaming<D>)
        ensures
            r.wf(),
            r.phase() is Body,
            r.direction() is Request,
            r.fed() == Seq::<u8>::empty(),
            r.delivered() == Seq::<Seq<u8>>::empty(),
            r.buffered() == Seq::<u8>::empty(),
            r.trailers_seen() is None,
    {
        Self::make(decoder, Direction::Request)
    }

    /// The trailing metadata the stream has received, once it has arrived.
    pub fn trailers(&self) -> (r: &Option<Trailers>)
        ensures
            *r == self.trailers_seen(),
    {
        &self.trailer_meta
    }

    /// Records the trailing metadata the byte source reported, for callers
    /// that read the raw metadata independently of status inference — a
    /// request or empty-response stream never reaches the phase that accepts
    /// a trailers event, so whatever fetches its trailers hands them in
    /// here.  Nothing else about the stream changes.
    pub fn record_trailers(&mut self, t: Option<Trailers>)
        requires
            old(self).wf(),
        ensures
            final(self).wf(),
            final(self).trailers_seen() == t,
            final(self).fed() == old(self).fed(),
            final(self).delivered() == old(self).delivered(),
            final(self).buffered() == old(self).buffered(),
            final(self).phase() == old(self).phase(),
            final(self).direction() == old(self).direction(),
    {
        self.trailer_meta = t;
    }

    /// Runs the frame decoder once on the buffered bytes and, when a frame
    /// is complete, hands its payload to the codec.
    fn drive_body(&mut self) -> (r: StreamStep<D::Item>)
        requires
            old(self).wf(),
            old(self).phase() is Body,
        ensures
            final(self).wf(),
            final(self).direction() == old(self).direction(),
            final(self).trailers_seen() == old(self).trailers_seen(),
            final(self).fed() == old(self).fed(),
            match classify(old(self).buffered()) {
                FrameClass::NeedMore => {
                    &&& r is NeedChunk
                    &&& final(self).phase() is Body
                    &&& final(self).buffered() == old(self).buffered()
                    &&& final(self).delivered() == old(self).delivered()
                },
                FrameClass::Compressed => {
                    &&& (r matches StreamStep::Failure(st) && st.code == Code::Unimplemented)
                    &&& final(self).phase() is Done
                    &&& final(self).delivered() == old(self).delivered()
                },
                FrameClass::BadFlag => {
                    &&& (r matches StreamStep::Failure(st) && st.code == Code::Internal)
                    &&& final(self).phase() is Done
                    &&& final(self).delivered() == old(self).delivered()
                },
                FrameClass::Complete => {
                    &&& final(self).delivered() == old(self).delivered()
                        + seq![frame_payload(old(self).buffered())]
                    &&& final(self).buffered() == frame_rest(old(self).buffered())
                    &&& (r is Item || r is Failure)
                    &&& (r is Item <==> final(self).phase() is Body)
                    &&& (r is Failure ==> final(self).phase() is Done)
                },
            },
    {
        let ghost b0 = buf_bytes(self.buf);
        let step = decode_chunk(&mut self.state, &mut self.buf);
        match step {
            Ok(None) => StreamStep::NeedChunk,
            Ok(Some(payload)) => {
                let ghost pv = payload@;
                proof {
                    assert(classify(b0) is Complete);
                    let l = be_len(b0);
                    let frame = b0.take(5 + l);
                    assert(frame[0] == 0 && be_len(frame) == l && frame.len() == 5 + l);
                    assert(classify(frame) is Complete);
                    assert(frame_payload(frame) =~= frame_payload(b0));
                    assert(frame_rest(frame) =~= Seq::<u8>::empty());
                    assert(payloads_of(Seq::<u8>::empty()) =~= Seq::<Seq<u8>>::empty());
                    assert(residue_of(Seq::<u8>::empty()) =~= Seq::<u8>::empty());
                    assert(payloads_of(frame) =~= seq![frame_payload(b0)]);
                    assert(residue_of(frame) == residue_of(frame_rest(frame)));
                    lemma_parse_append(self.consumed@, frame);
                    assert((self.consumed@ + frame) + buf_bytes(self.buf) =~= self.consumed@ + b0);
                }
                self.consumed = Ghost(self.consumed@ + b0.take(5 + be_len(b0)));
                self.handed = Ghost(self.handed@ + seq![pv]);
                let step = step_of_codec_answer(self.decoder.decode(payload));
                if let StreamStep::Failure(_) = &step {
                    self.phase = Phase::Done;
                }
                step
            },
            Err(st) => {
                self.phase = Phase::Done;
                StreamStep::Failure(st)
            },
        }
    }

    /// Advances the stream by one event and says what to do next.
    ///
    /// In the body phase, an ask or a chunk drives the frame decoder: a
    /// complete frame yields at most one message per step, buffered frames
    /// beyond it wait for the next ask.  The end of the byte source with
    /// bytes still buffered is a framing violation; a clean end finishes a
    /// request stream and sends a response stream to the trailer phase,
    /// where the received metadata decides the outcome.  Once the stream has
    /// ended — for any reason — every further event reports `Finished` and
    /// changes nothing.
    pub fn poll_step(&mut self, event: StreamEvent) -> (r: StreamStep<D::Item>)
        requires
            old(self).wf(),
        ensures
            final(self).wf(),
            final(self).direction() == old(self).direction(),
            old(self).phase() is Done ==> r is Finished && *final(self) == *old(self),
            !(old(self).phase() is AwaitTrailers && event matches StreamEvent::TrailersReady(_))
                ==> final(self).trailers_seen() == old(self).trailers_seen(),
            old(self).phase() is Body && (event is Ask || event is Chunk) ==> {
                &&& final(self).fed() == old(self).fed() + event_bytes(event)
                &&& match classify(old(self).buffered() + event_bytes(event)) {
                    FrameClass::NeedMore => {
                        &&& r is NeedChunk
                        &&& final(self).phase() is Body
                        &&& final(self).buffered() == old(self).buffered() + event_bytes(event)
                        &&& final(self).delivered() == old(self).delivered()
                    },
                    FrameClass::Compressed => {
                        &&& (r matches StreamStep::Failure(st) && st.code == Code::Unimplemented)
                        &&& final(self).phase() is Done
                        &&& final(self).delivered() == old(self).delivered()
                    },
                    FrameClass::BadFlag => {
                        &&& (r matches StreamStep::Failure(st) && st.code == Code::Internal)
                        &&& final(self).phase() is Done
                        &&& final(self).delivered() == old(self).delivered()
                    },
                    FrameClass::Complete => {
                        &&& final(self).delivered() == old(self).delivered()
                            + seq![frame_payload(old(self).buffered() + event_bytes(event))]
                        &&& final(self).buffered() == frame_rest(
                            old(self).buffered() + event_bytes(event),
                        )
                        &&& (r is Item || r is Failure)
                        &&& (r is Item <==> final(self).phase() is Body)
                        &&& (r is Failure ==> final(self).phase() is Done)
                    },
                }
            },
            old(self).phase() is Body && event is SourceEnd ==> {
                &&& final(self).fed() == old(self).fed()
                &&& final(self).delivered() == old(self).delivered()
                &&& if old(self).buffered().len() > 0 {
                    &&& (r matches StreamStep::Failure(st) && st.code == Code::Internal
                        && st.message@ == "Unexpected EOF decoding stream."@)
                    &&& final(self).phase() is Done
                } else {
                    &&& final(self).delivered() == payloads_of(final(self).fed())
                    &&& if old(self).direction() matches Direction::Response { .. } {
                        r is NeedTrailers && final(self).phase() is AwaitTrailers
                    } else {
                        r is Finished && final(self).phase() is Done
                    }
                }
            },
            old(self).phase() is Body ==> (event matches StreamEvent::SourceError(m) ==> {
                &&& (r matches StreamStep::Failure(st) && st.code == Code::Unknown && st.message@
                    == m@)
                &&& final(self).phase() is Done
                &&& final(self).delivered() == old(self).delivered()
                &&& final(self).fed() == old(self).fed()
            }),
            old(self).phase() is Body && (event matches StreamEvent::TrailersReady(_)
                || event matches StreamEvent::TrailersFailed(_)) ==> r is NeedChunk && *final(self)
                == *old(self),
            old(self).phase() is AwaitTrailers ==> final(self).fed() == old(self).fed()
                && final(self).delivered() == old(self).delivered(),
            old(self).phase() is AwaitTrailers ==> (event matches StreamEvent::TrailersReady(t)
                ==> {
                &&& final(self).phase() is Done
                &&& final(self).trailers_seen() == t
                &&& (old(self).direction() matches Direction::Response { http_status }
                    ==> match spec_infer(t, http_status) {
                    Ok(()) => r is Finished,
                    Err(f) => r matches StreamStep::Failure(st) && st.code == f.0 && st.message@
                        == f.1,
                })
            }),
            old(self).phase() is AwaitTrailers ==> (event matches StreamEvent::TrailersFailed(m)
                ==> (r matches StreamStep::Failure(st) && st.code == Code::Unknown && st.message@
                == m@) && final(self).phase() is Done),
            old(self).phase() is AwaitTrailers && !(event matches StreamEvent::TrailersReady(_)
                || event matches StreamEvent::TrailersFailed(_)) ==> r is NeedTrailers
                && *final(self) == *old(self),
    {
        match self.phase {
            Phase::Done => StreamStep::Finished,
            Phase::AwaitTrailers => {
                match event {
                    StreamEvent::TrailersReady(t) => {
                        self.trailer_meta = t;
                        self.phase = Phase::Done;
                        let http_status: u16;
                        match self.direction {
                            Direction::Response { http_status: s } => {
                                http_status = s;
                            },
                            _ => {
                                proof {
                                    assert(false);
                                }
                                http_status = 0;
                            },
                        }
                        match infer_grpc_status(&self.trailer_meta, http_status) {
                            Ok(()) => StreamStep::Finished,
                            Err(st) => StreamStep::Failure(st),
                        }
                    },
                    StreamEvent::TrailersFailed(m) => {
                        self.phase = Phase::Done;
                        StreamStep::Failure(GrpcStatus::new(Code::Unknown, m))
                    },
                    _ => StreamStep::NeedTrailers,
                }
            },
            Phase::Body => {
                match event {
                    StreamEvent::Ask => {
                        proof {
                            assert(old(self).fed() + event_bytes(event) =~= old(self).fed());
                        }
                        self.drive_body()
                    },
                    StreamEvent::Chunk(d) => {
                        buf_append(&mut self.buf, &d);
                        proof {
                            assert(self.consumed@ + buf_bytes(self.buf) =~= old(self).fed()
                                + event_bytes(event));
                        }
                        self.drive_body()
                    },
                    StreamEvent::SourceEnd => {
                        if buf_len(&self.buf) > 0 {
                            self.phase = Phase::Done;
                            StreamStep::Failure(
                                GrpcStatus::new(
                                    Code::Internal,
                                    "Unexpected EOF decoding stream.".to_string(),
                                ),
                            )
                        } else {
                            proof {
                                assert(self.consumed@ + buf_bytes(self.buf) =~= self.consumed@);
                            }
                            match self.direction {
                                Direction::Response { .. } => {
                                    self.phase = Phase::AwaitTrailers;
                                    StreamStep::NeedTrailers
                                },
                                _ => {
                                    self.phase = Phase::Done;
                                    StreamStep::Finished
                                },
                            }
                        }
                    },
                    StreamEvent::SourceError(m) => {
                        self.phase = Phase::Done;
                        StreamStep::Failure(GrpcStatus::new(Code::Unknown, m))
                    },
                    _ => StreamStep::NeedChunk,
                }
            },
        }
    }
}

/// Order and provenance: at every moment, the payloads handed to the codec,
/// followed by the complete frames still sitting in the buffer, are exactly
/// the frames of the bytes fed so far, in stream order.  The stream invents
/// no message, drops none, and never reorders.
pub proof fn lemma_delivered_is_prefix<D: Decoder>(s: &Streaming<D>)
    requires
        s.wf(),
    ensures
        payloads_of(s.fed()) == s.delivered() + payloads_of(s.buffered()),
{
    lemma_parse_append(s.consumed@, buf_bytes(s.buf));
}

/// Chunking invariance: how the byte source split the body into chunks
/// cannot show in what the codec was given.  Two streams that were fed byte
/// chunks with the same concatenation, and whose buffers are both empty
/// (as after a clean end of the source), have handed their codecs identical
/// payload sequences.
pub proof fn lemma_chunking_invariance<D1: Decoder, D2: Decoder>(
    a: &Streaming<D1>,
    b: &Streaming<D2>,
)
    requires
        a.wf(),
        b.wf(),
        a.drained(),
        b.drained(),
        a.fed() == b.fed(),
    ensures
        a.delivered() == b.delivered(),
{
    assert(a.fed() =~= a.consumed@);
    assert(b.fed() =~= b.consumed@);
}

} // verus!
