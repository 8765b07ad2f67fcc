use tonic::frame::encode_frame;
use tonic::status::{Code, GrpcStatus};
use tonic::streaming::{
    step_of_codec_answer, Decoder, RawCodec, StreamEvent, StreamStep, Streaming,
};

#[test]
fn codec_answer_with_a_message_becomes_an_item() {
    match step_of_codec_answer(Ok(Some(41u32))) {
        StreamStep::Item(m) => assert_eq!(m, 41),
        _ => panic!("expected an item"),
    }
}

#[test]
fn codec_answer_with_an_error_is_passed_through_unchanged() {
    let e = GrpcStatus::new(Code::DataLoss, "torn record".to_string());
    match step_of_codec_answer::<u32>(Err(e)) {
        StreamStep::Failure(st) => {
            assert_eq!(st.code, Code::DataLoss);
            assert_eq!(st.message, "torn record");
        }
        _ => panic!("expected a failure"),
    }
}

#[test]
fn codec_answer_without_a_message_is_an_internal_failure() {
    match step_of_codec_answer::<u32>(Ok(None)) {
        StreamStep::Failure(st) => {
            assert_eq!(st.code, Code::Internal);
            assert_eq!(
                st.message,
                "Message decoder produced no message for a complete frame."
            );
        }
        _ => panic!("expected a failure"),
    }
}

/// A codec that parses the payload as one big-endian u16 per message.
struct PairCodec;

impl Decoder for PairCodec {
    type Item = u16;

    fn decode(&mut self, payload: Vec<u8>) -> Result<Option<u16>, GrpcStatus> {
        if payload.len() == 2 {
            Ok(Some(((payload[0] as u16) << 8) | payload[1] as u16))
        } else {
            Err(GrpcStatus::new(
                Code::InvalidArgument,
                "payload is not two bytes".to_string(),
            ))
        }
    }
}

/// A codec that claims it needs more bytes, which can never be right for a
/// complete frame.
struct StallingCodec;

impl Decoder for StallingCodec {
    type Item = u16;

    fn decode(&mut self, _payload: Vec<u8>) -> Result<Option<u16>, GrpcStatus> {
        Ok(None)
    }
}

#[test]
fn codec_decodes_each_payload() {
    let mut s = Streaming::new_request(PairCodec);
    match s.poll_step(StreamEvent::Chunk(vec![0x00, 0, 0, 0, 2, 0x01, 0x02])) {
        StreamStep::Item(m) => assert_eq!(m, 0x0102),
        _ => panic!("expected a decoded message"),
    }
}

#[test]
fn codec_error_ends_the_stream() {
    let mut s = Streaming::new_request(PairCodec);
    match s.poll_step(StreamEvent::Chunk(vec![0x00, 0, 0, 0, 1, 0x01])) {
        StreamStep::Failure(st) => {
            assert_eq!(st.code, Code::InvalidArgument);
            assert_eq!(st.message, "payload is not two bytes");
        }
        _ => panic!("expected a failure"),
    }
    assert!(matches!(s.poll_step(StreamEvent::Ask), StreamStep::Finished));
}

#[test]
fn codec_reporting_no_message_is_fatal() {
    let mut s = Streaming::new_request(StallingCodec);
    match s.poll_step(StreamEvent::Chunk(vec![0x00, 0, 0, 0, 1, 0x01])) {
        StreamStep::Failure(st) => assert_eq!(st.code, Code::Internal),
        _ => panic!("expected a failure"),
    }
    assert!(matches!(s.poll_step(StreamEvent::Ask), StreamStep::Finished));
}

#[test]
fn encode_frame_produces_the_wire_format() {
    assert_eq!(
        encode_frame(&b"ABC".to_vec()),
        vec![0x00, 0x00, 0x00, 0x00, 0x03, 0x41, 0x42, 0x43]
    );
    assert_eq!(encode_frame(&Vec::new()), vec![0x00, 0x00, 0x00, 0x00, 0x00]);
    let long = vec![0x55u8; 0x0102];
    let framed = encode_frame(&long);
    assert_eq!(&framed[..5], &[0x00, 0x00, 0x00, 0x01, 0x02]);
    assert_eq!(&framed[5..], &long[..]);
}

#[test]
fn round_trip_through_any_chunking() {
    let messages: Vec<Vec<u8>> = vec![b"hello".to_vec(), Vec::new(), vec![0xFF; 300]];
    let mut bytes: Vec<u8> = Vec::new();
    for m in &messages {
        bytes.extend_from_slice(&encode_frame(m));
    }
    for chunk_size in [1usize, 2, 7, 300, bytes.len()] {
        let mut s = Streaming::new_request(RawCodec);
        let mut chunks = bytes.chunks(chunk_size).map(|c| c.to_vec());
        let mut got: Vec<Vec<u8>> = Vec::new();
        let mut event = StreamEvent::Ask;
        loop {
            match s.poll_step(event) {
                StreamStep::Item(m) => {
                    got.push(m);
                    event = StreamEvent::Ask;
                }
                StreamStep::NeedChunk => {
                    event = match chunks.next() {
                        Some(c) => StreamEvent::Chunk(c),
                        None => StreamEvent::SourceEnd,
                    };
                }
                StreamStep::Finished => break,
                StreamStep::Failure(st) => panic!("unexpected failure: {}", st.message),
                StreamStep::NeedTrailers => panic!("request stream asked for trailers"),
            }
        }
        assert_eq!(got, messages, "chunk size {}", chunk_size);
    }
}
