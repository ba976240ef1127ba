//! Protobuf messages over a byte stream, each behind its length in four bytes.
//!
//! The stages below decide what to read, write and decode next.  Whoever owns the stream does
//! the reading and writing, and reports back with an event.
use crate::error::{Error, ErrorView};
use std::marker::PhantomData;
use vstd::prelude::*;

verus! {

/// The number of bytes in front of a message that give its length.
pub const LENGTH_BYTES: usize = 4;

/// A wrapper around a stream for reading and writing Protobuf messages.
pub struct ProtobufStream<M, S> {
    pub stream: S,
    pub message: PhantomData<M>,
}

/// How far the reading of one message has come.
#[derive(Debug, Clone, Copy)]
pub enum ReadStage {
    /// The length is being read.
    Length,
    /// The message, of this many bytes, is being read.
    Body(usize),
    /// The message is being decoded.
    Decode,
    /// The outcome was returned.
    Finished,
}

/// What happened to the last [`ReadAction`].
pub enum ReadEvent<M> {
    /// As many bytes as were asked for came in.
    Filled(Vec<u8>),
    /// The stream failed.
    Failed(String),
    /// The bytes were decoded, or could not be.
    Decoded(Result<M, String>),
}

/// What the reading of a message needs next.
pub enum ReadAction<M> {
    /// Read exactly this many bytes.
    Fill(usize),
    /// Decode a message from these bytes.
    Decode(Vec<u8>),
    /// Hand the outcome to the reader.
    Return(Result<M, Error>),
}

/// The model of a [`ReadEvent`].
pub enum ReadEventView<M> {
    Filled(Seq<u8>),
    Failed(Seq<char>),
    Decoded(Result<M, Seq<char>>),
}

/// The model of a [`ReadAction`].
pub enum ReadActionView<M> {
    Fill(nat),
    Decode(Seq<u8>),
    Return(Result<M, ErrorView>),
}

impl<M> View for ReadEvent<M> {
    type V = ReadEventView<M>;

    open spec fn view(&self) -> ReadEventView<M> {
        match *self {
            ReadEvent::Filled(bytes) => ReadEventView::Filled(bytes@),
            ReadEvent::Failed(text) => ReadEventView::Failed(text@),
            ReadEvent::Decoded(Ok(message)) => ReadEventView::Decoded(Ok(message)),
            ReadEvent::Decoded(Err(text)) => ReadEventView::Decoded(Err(text@)),
        }
    }
}

impl<M> View for ReadAction<M> {
    type V = ReadActionView<M>;

    open spec fn view(&self) -> ReadActionView<M> {
        match *self {
            ReadAction::Fill(count) => ReadActionView::Fill(count as nat),
            ReadAction::Decode(bytes) => ReadActionView::Decode(bytes@),
            ReadAction::Return(Ok(message)) => ReadActionView::Return(Ok(message)),
            ReadAction::Return(Err(error)) => ReadActionView::Return(Err(error@)),
        }
    }
}

/// How far the writing of one message has come.
#[derive(Debug)]
pub enum WriteStage {
    /// The length is being written; the encoded message follows.
    Length(Vec<u8>),
    /// The message is being written.
    Body,
    /// The stream is being flushed.
    Flush,
    /// The outcome was returned.
    Finished,
}

/// What happened to the last [`WriteAction`].
pub enum WriteEvent {
    /// It is done.
    Done,
    /// The stream failed.
    Failed(String),
}

/// What the writing of a message needs next.
pub enum WriteAction {
    /// Write all of these bytes.
    WriteAll(Vec<u8>),
    /// Flush the stream.
    Flush,
    /// Hand the outcome to the writer.
    Return(Result<(), Error>),
}

/// The model of a [`WriteStage`].
pub enum WriteStageView {
    Length(Seq<u8>),
    Body,
    Flush,
    Finished,
}

/// The model of a [`WriteEvent`].
pub enum WriteEventView {
    Done,
    Failed(Seq<char>),
}

/// The model of a [`WriteAction`].
pub enum WriteActionView {
    WriteAll(Seq<u8>),
    Flush,
    Return(Result<(), ErrorView>),
}

impl View for WriteStage {
    type V = WriteStageView;

    open spec fn view(&self) -> WriteStageView {
        match *self {
            WriteStage::Length(body) => WriteStageView::Length(body@),
            WriteStage::Body => WriteStageView::Body,
            WriteStage::Flush => WriteStageView::Flush,
            WriteStage::Finished => WriteStageView::Finished,
        }
    }
}

impl View for WriteEvent {
    type V = WriteEventView;

    open spec fn view(&self) -> WriteEventView {
        match *self {
            WriteEvent::Done => WriteEventView::Done,
            WriteEvent::Failed(text) => WriteEventView::Failed(text@),
        }
    }
}

impl View for WriteAction {
    type V = WriteActionView;

    open spec fn view(&self) -> WriteActionView {
        match *self {
            WriteAction::WriteAll(bytes) => WriteActionView::WriteAll(bytes@),
            WriteAction::Flush => WriteActionView::Flush,
            WriteAction::Return(Ok(_)) => WriteActionView::Return(Ok(())),
            WriteAction::Return(Err(error)) => WriteActionView::Return(Err(error@)),
        }
    }
}

/// The low 32 bits of a length as four bytes, the most significant one first.
pub open spec fn length_field(length: nat) -> Seq<u8> {
    seq![
        (length / 0x100_0000 % 0x100) as u8,
        (length / 0x1_0000 % 0x100) as u8,
        (length / 0x100 % 0x100) as u8,
        (length % 0x100) as u8,
    ]
}

/// The length that four bytes give, the most significant one first.
pub open spec fn field_length(bytes: Seq<u8>) -> nat {
    (bytes[0] * 0x100_0000 + bytes[1] * 0x1_0000 + bytes[2] * 0x100 + bytes[3]) as nat
}

/// The stage that follows an event while a message is read, and the action to take.  An event
/// that does not answer the last action changes nothing.
pub open spec fn read_step<M>(stage: ReadStage, event: ReadEventView<M>) -> (
    ReadStage,
    Option<ReadActionView<M>>,
) {
    match (stage, event) {
        (ReadStage::Length, ReadEventView::Filled(bytes)) => if bytes.len() == LENGTH_BYTES {
            (
                ReadStage::Body(field_length(bytes) as usize),
                Some(ReadActionView::Fill(field_length(bytes))),
            )
        } else {
            (stage, None)
        },
        (ReadStage::Body(length), ReadEventView::Filled(bytes)) => if bytes.len() == length {
            (ReadStage::Decode, Some(ReadActionView::Decode(bytes)))
        } else {
            (stage, None)
        },
        (ReadStage::Decode, ReadEventView::Decoded(Ok(message))) => (
            ReadStage::Finished,
            Some(ReadActionView::Return(Ok(message))),
        ),
        (ReadStage::Decode, ReadEventView::Decoded(Err(text))) => (
            ReadStage::Finished,
            Some(ReadActionView::Return(Err(ErrorView::ProtoSerialization(text)))),
        ),
        (ReadStage::Length, ReadEventView::Failed(text)) => (
            ReadStage::Finished,
            Some(ReadActionView::Return(Err(ErrorView::Io(text)))),
        ),
        (ReadStage::Body(_), ReadEventView::Failed(text)) => (
            ReadStage::Finished,
            Some(ReadActionView::Return(Err(ErrorView::Io(text)))),
        ),
        _ => (stage, None),
    }
}

/// The stage at which the writing of a message begins, and the action to take first.
pub open spec fn write_start(encoded_len: nat, encoded: Result<Seq<u8>, Seq<char>>) -> (
    WriteStageView,
    WriteActionView,
) {
    match encoded {
        Ok(body) => (
            WriteStageView::Length(body),
            WriteActionView::WriteAll(length_field(encoded_len)),
        ),
        Err(text) => (
            WriteStageView::Finished,
            WriteActionView::Return(Err(ErrorView::ProtoSerialization(text))),
        ),
    }
}

/// The stage that follows an event while a message is written, and the action to take.
pub open spec fn write_step(stage: WriteStageView, event: WriteEventView) -> (
    WriteStageView,
    Option<WriteActionView>,
) {
    match (stage, event) {
        (WriteStageView::Finished, _) => (stage, None),
        (_, WriteEventView::Failed(text)) => (
            WriteStageView::Finished,
            Some(WriteActionView::Return(Err(ErrorView::Io(text)))),
        ),
        (WriteStageView::Length(body), WriteEventView::Done) => (
            WriteStageView::Body,
            Some(WriteActionView::WriteAll(body)),
        ),
        (WriteStageView::Body, WriteEventView::Done) => (
            WriteStageView::Flush,
            Some(WriteActionView::Flush),
        ),
        (WriteStageView::Flush, WriteEventView::Done) => (
            WriteStageView::Finished,
            Some(WriteActionView::Return(Ok(()))),
        ),
    }
}

/// The low 32 bits of a length as four bytes, the most significant one first.
pub fn encode_length(length: usize) -> (bytes: Vec<u8>)
    ensures
        bytes@ == length_field(length as nat),
        bytes@.len() == 4,
        bytes@[0] * 0x100_0000 + bytes@[1] * 0x1_0000 + bytes@[2] * 0x100 + bytes@[3]
            == length as int % 0x1_0000_0000,
{
    proof {
        law_length_is_written_most_significant_byte_first(length as nat);
    }
    let length: u64 = length as u64;
    let mut bytes: Vec<u8> = Vec::new();
    bytes.push((length / 0x100_0000 % 0x100) as u8);
    bytes.push((length / 0x1_0000 % 0x100) as u8);
    bytes.push((length / 0x100 % 0x100) as u8);
    bytes.push((length % 0x100) as u8);
    bytes
}

/// The length that four bytes give, the most significant one first.
pub fn decode_length(bytes: &Vec<u8>) -> (length: usize)
    requires
        bytes@.len() == LENGTH_BYTES,
    ensures
        length == field_length(bytes@),
        length == bytes@[0] * 0x100_0000 + bytes@[1] * 0x1_0000 + bytes@[2] * 0x100 + bytes@[3],
{
    let length: u32 = bytes[0] as u32 * 0x100_0000 + bytes[1] as u32 * 0x1_0000 + bytes[2] as u32
        * 0x100 + bytes[3] as u32;
    length as usize
}

impl<M, S> ProtobufStream<M, S> {
    /// Wraps a stream.
    pub fn new(stream: S) -> (wrapped: Self)
        ensures
            wrapped.stream == stream,
    {
        ProtobufStream { stream, message: PhantomData }
    }

    /// Starts to read a message: the length comes first.
    pub fn read(&self) -> (started: (ReadStage, ReadAction<M>))
        ensures
            started.0 == ReadStage::Length,
            started.1@ == ReadActionView::<M>::Fill(LENGTH_BYTES as nat),
    {
        (ReadStage::Length, ReadAction::Fill(LENGTH_BYTES))
    }

    /// Starts to write a message, given the length that it announces and its encoding: the
    /// length goes first.  A message that could not be encoded is an error.
    pub fn write(&self, encoded_len: usize, encoded: Result<Vec<u8>, String>) -> (started: (
        WriteStage,
        WriteAction,
    ))
        ensures
            encoded matches Ok(body) ==> (started.0@, started.1@) == write_start(
                encoded_len as nat,
                Ok(body@),
            ),
            encoded matches Err(text) ==> (started.0@, started.1@) == write_start(
                encoded_len as nat,
                Err(text@),
            ),
    {
        match encoded {
            Ok(body) => (
                WriteStage::Length(body),
                WriteAction::WriteAll(encode_length(encoded_len)),
            ),
            Err(text) => (
                WriteStage::Finished,
                WriteAction::Return(Err(Error::ProtoSerialization(text))),
            ),
        }
    }
}

impl ReadStage {
    /// Takes the event that answers the last action, and gives the next stage and action.  An
    /// event that does not answer the last action changes nothing and asks for nothing.
    pub fn advance<M>(self, event: ReadEvent<M>) -> (next: (ReadStage, Option<ReadAction<M>>))
        ensures
            next.0 == read_step(self, event@).0,
            next.1 is Some <==> read_step(self, event@).1 is Some,
            next.1 matches Some(action) ==> Some(action@) == read_step(self, event@).1,
    {
        match (self, event) {
            (ReadStage::Length, ReadEvent::Filled(bytes)) => {
                if bytes.len() == LENGTH_BYTES {
                    let length: usize = decode_length(&bytes);
                    (ReadStage::Body(length), Some(ReadAction::Fill(length)))
                } else {
                    (self, None)
                }
            },
            (ReadStage::Body(length), ReadEvent::Filled(bytes)) => {
                if bytes.len() == length {
                    (ReadStage::Decode, Some(ReadAction::Decode(bytes)))
                } else {
                    (self, None)
                }
            },
            (ReadStage::Decode, ReadEvent::Decoded(Ok(message))) => (
                ReadStage::Finished,
                Some(ReadAction::Return(Ok(message))),
            ),
            (ReadStage::Decode, ReadEvent::Decoded(Err(text))) => (
                ReadStage::Finished,
                Some(ReadAction::Return(Err(Error::ProtoSerialization(text)))),
            ),
            (ReadStage::Length, ReadEvent::Failed(text)) => (
                ReadStage::Finished,
                Some(ReadAction::Return(Err(Error::Io(text)))),
            ),
            (ReadStage::Body(_), ReadEvent::Failed(text)) => (
                ReadStage::Finished,
                Some(ReadAction::Return(Err(Error::Io(text)))),
            ),
            _ => (self, None),
        }
    }
}

impl WriteStage {
    /// Takes the event that answers the last action, and gives the next stage and action.
    /// Once the outcome was returned, no event asks for anything.
    pub fn advance(self, event: WriteEvent) -> (next: (WriteStage, Option<WriteAction>))
        ensures
            next.0@ == write_step(self@, event@).0,
            next.1 is Some <==> write_step(self@, event@).1 is Some,
            next.1 matches Some(action) ==> Some(action@) == write_step(self@, event@).1,
    {
        match (self, event) {
            (WriteStage::Finished, _) => (WriteStage::Finished, None),
            (_, WriteEvent::Failed(text)) => (
                WriteStage::Finished,
                Some(WriteAction::Return(Err(Error::Io(text)))),
            ),
            (WriteStage::Length(body), WriteEvent::Done) => (
                WriteStage::Body,
                Some(WriteAction::WriteAll(body)),
            ),
            (WriteStage::Body, WriteEvent::Done) => (WriteStage::Flush, Some(WriteAction::Flush)),
            (WriteStage::Flush, WriteEvent::Done) => (
                WriteStage::Finished,
                Some(WriteAction::Return(Ok(()))),
            ),
        }
    }
}

/// One message on the stream: its length, then its encoding.
pub open spec fn frame(body: Seq<u8>) -> Seq<u8> {
    length_field(body.len()) + body
}

/// Messages on the stream, one behind the other.
pub open spec fn frames(bodies: Seq<Seq<u8>>) -> Seq<u8>
    decreases bodies.len(),
{
    if bodies.len() == 0 {
        Seq::empty()
    } else {
        frame(bodies.first()) + frames(bodies.drop_first())
    }
}

/// What reading one message takes off a stream that holds these bytes: the encoding that is
/// handed over for decoding, and what is left on the stream.
///
/// The reads are those that [`read_step`] asks for.
pub open spec fn read_frame<M>(stream: Seq<u8>) -> Option<(Seq<u8>, Seq<u8>)> {
    if stream.len() < LENGTH_BYTES {
        None
    } else {
        let first = stream.take(LENGTH_BYTES as int);
        match read_step::<M>(ReadStage::Length, ReadEventView::Filled(first)) {
            (stage, Some(ReadActionView::Fill(count))) => {
                let rest = stream.skip(LENGTH_BYTES as int);
                if rest.len() < count {
                    None
                } else {
                    let second = rest.take(count as int);
                    match read_step::<M>(stage, ReadEventView::Filled(second)) {
                        (_, Some(ReadActionView::Decode(body))) => Some(
                            (body, rest.skip(count as int)),
                        ),
                        _ => None,
                    }
                }
            },
            _ => None,
        }
    }
}

/// The encodings that reading message after message hands over until the stream is empty.
pub open spec fn read_frames<M>(stream: Seq<u8>) -> Option<Seq<Seq<u8>>>
    decreases stream.len(),
{
    if stream.len() == 0 {
        Some(Seq::empty())
    } else {
        match read_frame::<M>(stream) {
            Some((body, rest)) => if rest.len() < stream.len() {
                match read_frames::<M>(rest) {
                    Some(bodies) => Some(seq![body] + bodies),
                    None => None,
                }
            } else {
                None
            },
            None => None,
        }
    }
}

/// A length below 2 to the power of 32 is read back as it was written.
pub proof fn law_length_read_back(length: nat)
    requires
        length < 0x1_0000_0000,
    ensures
        length_field(length).len() == LENGTH_BYTES,
        field_length(length_field(length)) == length,
{
    let a = length / 0x100_0000;
    let b = length / 0x1_0000;
    let c = length / 0x100;
    assert(a == b / 0x100);
    assert(b == c / 0x100);
}

/// Writing a message that encodes to `body`, and announces that many bytes, puts exactly
/// [`frame`] of `body` on the stream, flushes it and then succeeds.
pub proof fn law_write_sends_one_frame(body: Seq<u8>)
    ensures
        ({
            let (stage, announced) = write_start(body.len(), Ok(body));
            let (stage, sent) = write_step(stage, WriteEventView::Done);
            let (stage, flushed) = write_step(stage, WriteEventView::Done);
            let (stage, returned) = write_step(stage, WriteEventView::Done);
            &&& announced is WriteAll
            &&& sent is Some && sent->0 is WriteAll
            &&& announced->WriteAll_0 + sent->0->WriteAll_0 == frame(body)
            &&& flushed == Some(WriteActionView::Flush)
            &&& returned == Some(WriteActionView::Return(Ok(())))
            &&& stage == WriteStageView::Finished
        }),
{
}

/// Reading gives back what writing sent: the encoding of the message, whole, and the bytes
/// behind it stay on the stream.  The length of the message has to fit its field.
pub proof fn law_read_returns_what_write_sent<M>(body: Seq<u8>, rest: Seq<u8>)
    requires
        body.len() < 0x1_0000_0000,
    ensures
        read_frame::<M>(frame(body) + rest) == Some((body, rest)),
{
    law_length_read_back(body.len());
    let stream = frame(body) + rest;
    let first = stream.take(LENGTH_BYTES as int);
    assert(first =~= length_field(body.len()));
    let behind = stream.skip(LENGTH_BYTES as int);
    assert(behind =~= body + rest);
    assert(behind.take(body.len() as int) =~= body);
    assert(behind.skip(body.len() as int) =~= rest);
}

/// Reading message after message begins with the first message on the stream.
proof fn lemma_read_frames_step<M>(body: Seq<u8>, rest: Seq<u8>)
    requires
        body.len() < 0x1_0000_0000,
    ensures
        read_frames::<M>(frame(body) + rest) == match read_frames::<M>(rest) {
            Some(bodies) => Some(seq![body] + bodies),
            None => None,
        },
{
    law_read_returns_what_write_sent::<M>(body, rest);
    assert(rest.len() < (frame(body) + rest).len());
}

/// Messages are read back in the order in which they were written, none lost and none added.
#[verifier::spinoff_prover]
pub proof fn law_messages_read_back_in_order<M>(bodies: Seq<Seq<u8>>)
    requires
        forall|i: int| 0 <= i < bodies.len() ==> (#[trigger] bodies[i]).len() < 0x1_0000_0000,
    ensures
        read_frames::<M>(frames(bodies)) == Some(bodies),
    decreases bodies.len(),
{
    if bodies.len() > 0 {
        let others = bodies.drop_first();
        assert forall|i: int| 0 <= i < others.len() implies (#[trigger] others[i]).len()
            < 0x1_0000_0000 by {
            assert(others[i] == bodies[i + 1]);
        }
        law_messages_read_back_in_order::<M>(others);
        assert(bodies[0].len() < 0x1_0000_0000);
        lemma_read_frames_step::<M>(bodies.first(), frames(others));
        assert(seq![bodies.first()] + others =~= bodies);
    }
}

/// A message is handed over only whole: from a stream that ends within a message nothing is
/// handed over.
pub proof fn law_cut_message_is_not_handed_over<M>(body: Seq<u8>, count: nat)
    requires
        body.len() < 0x1_0000_0000,
        count < frame(body).len(),
    ensures
        read_frame::<M>(frame(body).take(count as int)) is None,
{
    law_length_read_back(body.len());
    let stream = frame(body).take(count as int);
    if stream.len() >= LENGTH_BYTES {
        assert(stream.take(LENGTH_BYTES as int) =~= length_field(body.len()));
    }
}

/// The length in front of a message is four bytes, the most significant one first: together they
/// make up the length, without what does not fit 32 bits.
pub proof fn law_length_is_written_most_significant_byte_first(length: nat)
    ensures
        length_field(length).len() == 4,
        length_field(length)[0] * 0x100_0000 + length_field(length)[1] * 0x1_0000 + length_field(
            length,
        )[2] * 0x100 + length_field(length)[3] == length as int % 0x1_0000_0000,
        length < 0x1_0000_0000 ==> length_field(length)[0] * 0x100_0000 + length_field(length)[1]
            * 0x1_0000 + length_field(length)[2] * 0x100 + length_field(length)[3] == length,
{
    let a = length / 0x100_0000;
    let b = length / 0x1_0000;
    let c = length / 0x100;
    assert(a == b / 0x100);
    assert(b == c / 0x100);
    assert(a / 0x100 == length / 0x1_0000_0000);
}

/// Whatever four bytes come in first, reading goes on to ask for as many bytes as they make up,
/// the most significant one first.
pub proof fn law_read_asks_for_the_announced_length<M>(bytes: Seq<u8>)
    requires
        bytes.len() == 4,
    ensures
        ({
            let length = bytes[0] * 0x100_0000 + bytes[1] * 0x1_0000 + bytes[2] * 0x100 + bytes[3];
            read_step::<M>(ReadStage::Length, ReadEventView::Filled(bytes)) == (
                ReadStage::Body(length as usize),
                Some(ReadActionView::<M>::Fill(length as nat)),
            )
        }),
{
}

/// The bytes that were asked for are decoded as they came in, all of them.
pub proof fn law_read_decodes_what_came_in<M>(length: usize, bytes: Seq<u8>)
    requires
        bytes.len() == length,
    ensures
        read_step::<M>(ReadStage::Body(length), ReadEventView::Filled(bytes)) == (
            ReadStage::Decode,
            Some(ReadActionView::<M>::Decode(bytes)),
        ),
{
}

/// What decoding gives is what the reader gets: the message, or the reason why there is none.
pub proof fn law_read_returns_what_was_decoded<M>(message: M, reason: Seq<char>)
    ensures
        read_step(ReadStage::Decode, ReadEventView::Decoded(Ok(message))) == (
            ReadStage::Finished,
            Some(ReadActionView::Return(Ok::<M, ErrorView>(message))),
        ),
        read_step::<M>(ReadStage::Decode, ReadEventView::Decoded(Err(reason))) == (
            ReadStage::Finished,
            Some(
                ReadActionView::<M>::Return(
                    Err::<M, ErrorView>(ErrorView::ProtoSerialization(reason)),
                ),
            ),
        ),
{
}

/// Where the stream fails while the length or the message is read, the reader gets that failure.
pub proof fn law_failed_read_is_returned<M>(length: usize, reason: Seq<char>)
    ensures
        read_step::<M>(ReadStage::Length, ReadEventView::Failed(reason)) == (
            ReadStage::Finished,
            Some(ReadActionView::<M>::Return(Err::<M, ErrorView>(ErrorView::Io(reason)))),
        ),
        read_step::<M>(ReadStage::Body(length), ReadEventView::Failed(reason)) == (
            ReadStage::Finished,
            Some(ReadActionView::<M>::Return(Err::<M, ErrorView>(ErrorView::Io(reason)))),
        ),
{
}

/// An event that does not answer the last action leaves the reading where it is: bytes that are
/// not as many as were asked for, a message that was not decoded from anything, and whatever
/// comes once the outcome was returned.
pub proof fn law_read_waits_for_its_answer<M>(stage: ReadStage, event: ReadEventView<M>)
    requires
        match stage {
            ReadStage::Length => event is Decoded || (event is Filled && event->Filled_0.len() != 4),
            ReadStage::Body(length) => event is Decoded || (event is Filled
                && event->Filled_0.len() != length),
            ReadStage::Decode => !(event is Decoded),
            ReadStage::Finished => true,
        },
    ensures
        read_step(stage, event) == (stage, None::<ReadActionView<M>>),
{
}

/// A message that could be encoded goes out in three steps, each behind the last: the length that
/// it announces, its encoding as it is, and a flush.
pub proof fn law_write_goes_length_body_flush(encoded_len: nat, body: Seq<u8>)
    ensures
        write_start(encoded_len, Ok(body)).0 == WriteStageView::Length(body),
        write_start(encoded_len, Ok(body)).1 is WriteAll,
        write_start(encoded_len, Ok(body)).1->WriteAll_0.len() == 4,
        ({
            let sent = write_start(encoded_len, Ok(body)).1->WriteAll_0;
            sent[0] * 0x100_0000 + sent[1] * 0x1_0000 + sent[2] * 0x100 + sent[3]
                == encoded_len as int % 0x1_0000_0000
        }),
        write_step(WriteStageView::Length(body), WriteEventView::Done) == (
            WriteStageView::Body,
            Some(WriteActionView::WriteAll(body)),
        ),
        write_step(WriteStageView::Body, WriteEventView::Done) == (
            WriteStageView::Flush,
            Some(WriteActionView::Flush),
        ),
        write_step(WriteStageView::Flush, WriteEventView::Done) == (
            WriteStageView::Finished,
            Some(WriteActionView::Return(Ok::<(), ErrorView>(()))),
        ),
{
    law_length_is_written_most_significant_byte_first(encoded_len);
}

/// A message that could not be encoded is not written at all, and the writer gets the reason.
/// Where the stream fails at any step, the writer gets that failure and nothing more is written.
pub proof fn law_failed_write_is_returned(encoded_len: nat, stage: WriteStageView, reason: Seq<char>)
    ensures
        write_start(encoded_len, Err(reason)) == (
            WriteStageView::Finished,
            WriteActionView::Return(Err::<(), ErrorView>(ErrorView::ProtoSerialization(reason))),
        ),
        !(stage is Finished) ==> write_step(stage, WriteEventView::Failed(reason)) == (
            WriteStageView::Finished,
            Some(WriteActionView::Return(Err::<(), ErrorView>(ErrorView::Io(reason)))),
        ),
        write_step(WriteStageView::Finished, WriteEventView::Failed(reason)) == (
            WriteStageView::Finished,
            None::<WriteActionView>,
        ),
        write_step(WriteStageView::Finished, WriteEventView::Done) == (
            WriteStageView::Finished,
            None::<WriteActionView>,
        ),
{
}

/// The view of an event or an action of reading says which one it is, and all that it holds.
pub proof fn law_reading_is_what_its_views_say<M>(event: ReadEvent<M>, action: ReadAction<M>)
    ensures
        match event {
            ReadEvent::Filled(bytes) => event@ == ReadEventView::<M>::Filled(bytes@),
            ReadEvent::Failed(reason) => event@ == ReadEventView::<M>::Failed(reason@),
            ReadEvent::Decoded(Ok(message)) => event@ == ReadEventView::Decoded(
                Ok::<M, Seq<char>>(message),
            ),
            ReadEvent::Decoded(Err(reason)) => event@ == ReadEventView::Decoded(
                Err::<M, Seq<char>>(reason@),
            ),
        },
        match action {
            ReadAction::Fill(count) => action@ == ReadActionView::<M>::Fill(count as nat),
            ReadAction::Decode(bytes) => action@ == ReadActionView::<M>::Decode(bytes@),
            ReadAction::Return(Ok(message)) => action@ == ReadActionView::Return(
                Ok::<M, ErrorView>(message),
            ),
            ReadAction::Return(Err(error)) => action@ == ReadActionView::Return(
                Err::<M, ErrorView>(error@),
            ),
        },
{
}

/// The view of a stage, an event or an action of writing says which one it is, and all that it
/// holds.
pub proof fn law_writing_is_what_its_views_say(
    stage: WriteStage,
    event: WriteEvent,
    action: WriteAction,
)
    ensures
        match stage {
            WriteStage::Length(body) => stage@ == WriteStageView::Length(body@),
            WriteStage::Body => stage@ is Body,
            WriteStage::Flush => stage@ is Flush,
            WriteStage::Finished => stage@ is Finished,
        },
        match event {
            WriteEvent::Done => event@ is Done,
            WriteEvent::Failed(reason) => event@ == WriteEventView::Failed(reason@),
        },
        match action {
            WriteAction::WriteAll(bytes) => action@ == WriteActionView::WriteAll(bytes@),
            WriteAction::Flush => action@ is Flush,
            WriteAction::Return(Ok(_)) => action@ == WriteActionView::Return(
                Ok::<(), ErrorView>(()),
            ),
            WriteAction::Return(Err(error)) => action@ == WriteActionView::Return(
                Err::<(), ErrorView>(error@),
            ),
        },
{
}

} // verus!
