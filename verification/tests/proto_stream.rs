//! Messages on a stream.
use libp2p_webrtc_browser::error::Error;
use libp2p_webrtc_browser::proto_stream::{
    decode_length, encode_length, ProtobufStream, ReadAction, ReadEvent, ReadStage, WriteAction,
    WriteEvent, WriteStage,
};

type Stream = ProtobufStream<Vec<u8>, ()>;

/// Writes a message to the end of `wire`.
fn write(wire: &mut Vec<u8>, body: &[u8]) -> bool {
    let (mut stage, mut action) = Stream::new(()).write(body.len(), Ok(body.to_vec()));
    let mut flushed = false;
    loop {
        match action {
            WriteAction::WriteAll(bytes) => {
                assert!(!flushed);
                wire.extend(bytes);
            }
            WriteAction::Flush => flushed = true,
            WriteAction::Return(outcome) => {
                assert!(outcome.is_ok());
                return flushed;
            }
        }
        let (next, wanted) = stage.advance(WriteEvent::Done);
        stage = next;
        action = wanted.unwrap();
    }
}

/// Reads a message from the front of `wire`; its decoding is the bytes themselves.
fn read(wire: &mut Vec<u8>) -> Result<Vec<u8>, Error> {
    let (mut stage, mut action) = Stream::new(()).read();
    loop {
        let event = match action {
            ReadAction::Fill(count) if count <= wire.len() => {
                ReadEvent::Filled(wire.drain(..count).collect())
            }
            ReadAction::Fill(_) => ReadEvent::Failed("unexpected end of file".to_string()),
            ReadAction::Decode(bytes) => ReadEvent::Decoded(Ok(bytes)),
            ReadAction::Return(outcome) => return outcome,
        };
        let (next, wanted) = stage.advance(event);
        stage = next;
        action = wanted.unwrap();
    }
}

#[test]
fn length_is_four_bytes_the_most_significant_first() {
    assert_eq!(encode_length(0), vec![0, 0, 0, 0]);
    assert_eq!(encode_length(0x0102_0304), vec![1, 2, 3, 4]);
    assert_eq!(encode_length(0xffff_ffff), vec![255, 255, 255, 255]);
    assert_eq!(decode_length(&vec![1, 2, 3, 4]), 0x0102_0304);
}

#[test]
fn length_keeps_only_the_low_bits() {
    assert_eq!(encode_length(0x1_0000_0005), vec![0, 0, 0, 5]);
}

#[test]
fn lengths_are_read_back() {
    for length in [0, 1, 255, 256, 65_535, 65_536, 16_777_216, 0xffff_ffff] {
        assert_eq!(decode_length(&encode_length(length)), length);
    }
}

#[test]
fn stream_is_wrapped_as_it_is() {
    let wrapped: ProtobufStream<u8, &str> = ProtobufStream::new("stream");
    assert_eq!(wrapped.stream, "stream");
}

#[test]
fn message_is_written_behind_its_length_and_flushed() {
    let mut wire = Vec::new();
    assert!(write(&mut wire, b"abc"));
    assert_eq!(wire, vec![0, 0, 0, 3, b'a', b'b', b'c']);
}

#[test]
fn messages_are_read_back_in_order() {
    let mut wire = Vec::new();
    let bodies = vec![b"first".to_vec(), Vec::new(), vec![7u8; 300]];
    for body in &bodies {
        write(&mut wire, body);
    }
    for body in bodies {
        assert_eq!(read(&mut wire).unwrap(), body);
    }
    assert!(wire.is_empty());
}

#[test]
fn bytes_behind_a_message_stay_on_the_stream() {
    let mut wire = vec![0, 0, 0, 1, 42, 1, 2, 3];
    assert_eq!(read(&mut wire).unwrap(), vec![42]);
    assert_eq!(wire, vec![1, 2, 3]);
}

#[test]
fn cut_message_is_an_io_error() {
    for cut in [vec![], vec![0, 0, 0], vec![0, 0, 0, 4, 1, 2, 3]] {
        let mut wire = cut;
        match read(&mut wire) {
            Err(Error::Io(text)) => assert_eq!(text, "unexpected end of file"),
            other => panic!("unexpected outcome: {:?}", other),
        }
    }
}

#[test]
fn message_that_does_not_decode_is_an_error() {
    let event: ReadEvent<u8> = ReadEvent::Decoded(Err("bad tag".to_string()));
    let (stage, action) = ReadStage::Decode.advance(event);
    assert!(matches!(stage, ReadStage::Finished));
    match action {
        Some(ReadAction::Return(Err(Error::ProtoSerialization(text)))) => {
            assert_eq!(text, "bad tag")
        }
        _ => panic!("unexpected action"),
    }
}

#[test]
fn message_that_does_not_encode_is_not_written() {
    let (stage, action) = Stream::new(()).write(3, Err("no room".to_string()));
    assert!(matches!(stage, WriteStage::Finished));
    match action {
        WriteAction::Return(Err(Error::ProtoSerialization(text))) => assert_eq!(text, "no room"),
        _ => panic!("unexpected action"),
    }
}

#[test]
fn failed_write_is_an_io_error_at_every_stage() {
    for stage in [WriteStage::Length(vec![1]), WriteStage::Body, WriteStage::Flush] {
        let (next, action) = stage.advance(WriteEvent::Failed("broken pipe".to_string()));
        assert!(matches!(next, WriteStage::Finished));
        match action {
            Some(WriteAction::Return(Err(Error::Io(text)))) => assert_eq!(text, "broken pipe"),
            _ => panic!("unexpected action"),
        }
    }
}

#[test]
fn finished_stages_ask_for_nothing() {
    assert!(WriteStage::Finished.advance(WriteEvent::Done).1.is_none());
    let event: ReadEvent<u8> = ReadEvent::Failed("late".to_string());
    assert!(ReadStage::Finished.advance(event).1.is_none());
}

#[test]
fn events_that_answer_another_action_change_nothing() {
    let short: ReadEvent<u8> = ReadEvent::Filled(vec![0, 0]);
    let (stage, action) = ReadStage::Length.advance(short);
    assert!(matches!(stage, ReadStage::Length));
    assert!(action.is_none());
    let early: ReadEvent<u8> = ReadEvent::Decoded(Ok(1));
    let (stage, action) = ReadStage::Body(2).advance(early);
    assert!(matches!(stage, ReadStage::Body(2)));
    assert!(action.is_none());
}
