//! The decoder of the multiplexed log protocol, the decoder of
//! newline-delimited JSON, and the reader of a chunk stream.

use crate::buffer::{after_first_line, buffered, first_line, first_newline, take_line};
use crate::buffer::{bytes_of, lemma_first_newline};
use crate::container::{LogOutput, LogRecord, StreamKind};
use crate::errors::{DecodeError, DecodeErrorView, ReadError, ReadErrorView};
use bytes::BytesMut;
use vstd::prelude::*;
use vstd::utf8::{decode_utf8, encode_utf8, valid_utf8};

verus! {

/// The number of bytes at the front of a frame that carry no text: the tag
/// and what is reserved after it.
pub const HEADER_LEN: usize = 8;

/// `core::str::Utf8Error`, which `from_utf8` fails with; nothing of it is
/// read.
#[verifier::external_type_specification]
#[verifier::external_body]
pub struct ExUtf8Error(core::str::Utf8Error);

/// `core::str::from_utf8`: succeeds on exactly the slices that are UTF-8, and
/// the string it then returns is made of the slice's bytes.
pub assume_specification[ core::str::from_utf8 ](v: &[u8]) -> (r: Result<
    &str,
    core::str::Utf8Error,
>)
    ensures
        r is Ok <==> valid_utf8(v@),
        r matches Ok(s) ==> encode_utf8(s@) == v@,
;

/// The stream that a frame's first byte names, if it names one.
pub open spec fn stream_of_tag(tag: u8) -> Option<StreamKind> {
    if tag == 0 {
        Some(StreamKind::StdIn)
    } else if tag == 1 {
        Some(StreamKind::StdOut)
    } else if tag == 2 {
        Some(StreamKind::StdErr)
    } else {
        None
    }
}

/// The bytes of a frame that are its text: what follows the header, and
/// nothing where the frame is no longer than the header.
pub open spec fn frame_payload(frame: Seq<u8>) -> Seq<u8> {
    if frame.len() <= HEADER_LEN {
        Seq::empty()
    } else {
        frame.skip(HEADER_LEN as int)
    }
}

/// What one frame, taken without its newline, decodes to: nothing for an
/// empty frame, `MalformedFrame` for a tag that names no stream,
/// `InvalidEncoding` for a payload that is not UTF-8, and else the record of
/// the tagged stream with the payload as its text.
pub open spec fn frame_record(frame: Seq<u8>) -> Result<Option<LogRecord>, DecodeErrorView> {
    if frame.len() == 0 {
        Ok(None)
    } else {
        match stream_of_tag(frame[0]) {
            None => Err(DecodeErrorView::MalformedFrame { tag: frame[0] }),
            Some(stream) => if valid_utf8(frame_payload(frame)) {
                Ok(Some(LogRecord { stream, message: decode_utf8(frame_payload(frame)) }))
            } else {
                Err(DecodeErrorView::InvalidEncoding)
            },
        }
    }
}

/// Whether `result` is what `outcome` describes.
pub open spec fn record_matches(
    result: Result<Option<LogOutput>, DecodeError>,
    outcome: Result<Option<LogRecord>, DecodeErrorView>,
) -> bool {
    match result {
        Ok(None) => outcome == Ok::<Option<LogRecord>, DecodeErrorView>(None),
        Ok(Some(record)) => outcome == Ok::<Option<LogRecord>, DecodeErrorView>(Some(record@)),
        Err(e) => outcome == Err::<Option<LogRecord>, DecodeErrorView>(e@),
    }
}

/// The records of `records` as mathematical values.
pub open spec fn record_views(records: Seq<LogOutput>) -> Seq<LogRecord> {
    Seq::new(records.len(), |i: int| records[i]@)
}

/// The stream that `tag` names.
pub fn stream_kind(tag: u8) -> (kind: Option<StreamKind>)
    ensures
        kind == stream_of_tag(tag),
{
    match tag {
        0 => Some(StreamKind::StdIn),
        1 => Some(StreamKind::StdOut),
        2 => Some(StreamKind::StdErr),
        _ => None,
    }
}

/// Decodes one frame, given without its newline.
pub fn decode_frame(frame: &[u8]) -> (result: Result<Option<LogOutput>, DecodeError>)
    ensures
        record_matches(result, frame_record(frame@)),
{
    if frame.len() == 0 {
        return Ok(None);
    }
    let tag = frame[0];
    let stream = match stream_kind(tag) {
        Some(stream) => stream,
        None => {
            return Err(DecodeError::MalformedFrame { tag });
        },
    };
    if frame.len() <= HEADER_LEN {
        proof {
            assert(valid_utf8(Seq::<u8>::empty()));
            assert(decode_utf8(Seq::<u8>::empty()) =~= Seq::<char>::empty());
        }
        return Ok(Some(LogOutput::new(stream, String::new())));
    }
    let payload = &frame[HEADER_LEN..frame.len()];
    assert(payload@ == frame_payload(frame@));
    match core::str::from_utf8(payload) {
        Ok(text) => {
            proof {
                vstd::utf8::encode_utf8_decode_utf8(text@);
            }
            Ok(Some(LogOutput::new(stream, text.to_owned())))
        },
        Err(_) => Err(DecodeError::InvalidEncoding),
    }
}

/// What decoding yields from a run of bytes: the records of its frames in
/// order, the error that stopped it if a frame was refused, and the bytes
/// that are left in the buffer.
pub struct Drained {
    pub records: Seq<LogRecord>,
    pub failure: Option<DecodeErrorView>,
    pub pending: Seq<u8>,
}

/// Decodes `s` frame by frame, as repeated calls of `LineDecoder::decode` on
/// a buffer that holds `s` do, until no whole frame is left or a frame is
/// refused. Empty frames yield nothing; the first refusal ends the run.
pub open spec fn drain(s: Seq<u8>) -> Drained
    decreases s.len(),
{
    match first_newline(s) {
        None => Drained { records: Seq::empty(), failure: None, pending: s },
        Some(_) => {
            proof {
                lemma_first_newline(s);
            }
            match frame_record(first_line(s)) {
                Err(e) => Drained {
                    records: Seq::empty(),
                    failure: Some(e),
                    pending: after_first_line(s),
                },
                Ok(None) => drain(after_first_line(s)),
                Ok(Some(record)) => {
                    let rest = drain(after_first_line(s));
                    Drained {
                        records: seq![record] + rest.records,
                        failure: rest.failure,
                        pending: rest.pending,
                    }
                },
            }
        },
    }
}

/// A session that has yielded `before` receives `chunk`: after a refusal
/// nothing more is decoded, else the chunk is appended to what was pending
/// and the buffer is decoded again.
pub open spec fn feed(before: Drained, chunk: Seq<u8>) -> Drained {
    if before.failure is Some {
        before
    } else {
        let next = drain(before.pending + chunk);
        Drained {
            records: before.records + next.records,
            failure: next.failure,
            pending: next.pending,
        }
    }
}

/// What a session yields that receives `chunks` one after the other.
pub open spec fn feed_all(chunks: Seq<Seq<u8>>) -> Drained
    decreases chunks.len(),
{
    if chunks.len() == 0 {
        Drained { records: Seq::empty(), failure: None, pending: Seq::empty() }
    } else {
        feed(feed_all(chunks.drop_last()), chunks.last())
    }
}

/// The bytes of `chunks`, one chunk after the other.
pub open spec fn joined(chunks: Seq<Seq<u8>>) -> Seq<u8>
    decreases chunks.len(),
{
    if chunks.len() == 0 {
        Seq::empty()
    } else {
        joined(chunks.drop_last()) + chunks.last()
    }
}

/// What is pending after a run holds no newline: nothing more can be decoded
/// from it alone.
pub proof fn lemma_drain_pending(s: Seq<u8>)
    ensures
        drain(s).failure is None ==> first_newline(drain(s).pending) is None,
    decreases s.len(),
{
    if first_newline(s) is Some {
        lemma_first_newline(s);
        lemma_drain_pending(after_first_line(s));
    }
}

/// Decoding `a` and then, with `b` appended to what was left, decoding again
/// yields what decoding `a + b` at once yields: the same records in the same
/// order, the same refusal if there is one, and the same pending bytes if
/// there is none.
pub proof fn lemma_drain_append(a: Seq<u8>, b: Seq<u8>)
    ensures
        drain(a + b).records == feed(drain(a), b).records,
        drain(a + b).failure == feed(drain(a), b).failure,
        drain(a + b).failure is None ==> drain(a + b).pending == feed(drain(a), b).pending,
    decreases a.len(),
{
    match first_newline(a) {
        None => {
            assert(drain(a).records + drain(a + b).records =~= drain(a + b).records);
        },
        Some(_) => {
            lemma_first_newline(a);
            crate::buffer::lemma_first_line_append(a, b);
            let rest = after_first_line(a);
            lemma_drain_append(rest, b);
            match frame_record(first_line(a)) {
                Err(_) => {},
                Ok(None) => {},
                Ok(Some(record)) => {
                    if drain(rest).failure is None {
                        let next = drain(drain(rest).pending + b);
                        assert(seq![record] + (drain(rest).records + next.records) =~= (
                        seq![record] + drain(rest).records) + next.records);
                    }
                },
            }
        },
    }
}

/// Chunk boundaries carry no meaning: however a run of bytes is cut into
/// chunks, a session that receives the chunks in order yields the records,
/// and the refusal if any, that decoding the whole run at once yields, and
/// where nothing was refused the same bytes stay pending.
pub proof fn lemma_chunking_is_immaterial(chunks: Seq<Seq<u8>>)
    ensures
        feed_all(chunks).records == drain(joined(chunks)).records,
        feed_all(chunks).failure == drain(joined(chunks)).failure,
        feed_all(chunks).failure is None ==> feed_all(chunks).pending == drain(
            joined(chunks),
        ).pending,
    decreases chunks.len(),
{
    if chunks.len() > 0 {
        lemma_chunking_is_immaterial(chunks.drop_last());
        lemma_drain_append(joined(chunks.drop_last()), chunks.last());
    }
}

/// The decoder of the multiplexed log protocol. It keeps nothing between
/// calls: all that is pending lies in the caller's buffer.
pub struct LineDecoder {}

impl LineDecoder {
    /// A decoder.
    pub fn new() -> (decoder: LineDecoder) {
        LineDecoder {  }
    }

    /// Decodes the first frame in `src`, if `src` holds a whole one. Without a
    /// newline in it the buffer is left alone and the answer is `Ok(None)`:
    /// more bytes are needed. Else the first line and its newline leave the
    /// buffer, and the answer is what that line decodes to as a frame.
    pub fn decode(&mut self, src: &mut BytesMut) -> (result: Result<Option<LogOutput>, DecodeError>)
        ensures
            match first_newline(buffered(*old(src))) {
                None => result == Ok::<Option<LogOutput>, DecodeError>(None) && buffered(*final(src))
                    == buffered(*old(src)),
                Some(_) => buffered(*final(src)) == after_first_line(buffered(*old(src)))
                    && record_matches(result, frame_record(first_line(buffered(*old(src))))),
            },
    {
        match take_line(src) {
            None => Ok(None),
            Some(taken) => {
                let raw = bytes_of(&taken);
                let frame = &raw[0..raw.len() - 1];
                assert(frame@ == first_line(buffered(*old(src))));
                decode_frame(frame)
            },
        }
    }

    /// Decodes `src` until no whole frame is left in it or a frame is
    /// refused, and returns the records in order and the refusal, if there
    /// was one. This is `drain` on what the buffer held, and the buffer is
    /// left with what `drain` leaves pending.
    pub fn decode_all(&mut self, src: &mut BytesMut) -> (out: (Vec<LogOutput>, Option<DecodeError>))
        ensures
            record_views(out.0@) == drain(buffered(*old(src))).records,
            match out.1 {
                Some(e) => drain(buffered(*old(src))).failure == Some(e@),
                None => drain(buffered(*old(src))).failure is None,
            },
            buffered(*final(src)) == drain(buffered(*old(src))).pending,
    {
        let ghost whole = buffered(*src);
        let mut records: Vec<LogOutput> = Vec::new();
        assert(record_views(records@) + drain(whole).records =~= drain(whole).records);
        loop
            invariant
                whole == buffered(*old(src)),
                drain(whole).records == record_views(records@) + drain(buffered(*src)).records,
                drain(whole).failure == drain(buffered(*src)).failure,
                drain(whole).pending == drain(buffered(*src)).pending,
            ensures
                first_newline(buffered(*src)) is None,
            decreases buffered(*src).len(),
        {
            let ghost held = buffered(*src);
            let ghost before = record_views(records@);
            proof {
                lemma_first_newline(held);
            }
            let len = src.len();
            match self.decode(src) {
                Ok(Some(record)) => {
                    records.push(record);
                    assert(record_views(records@) =~= before.push(record@));
                    assert(before + (seq![record@] + drain(buffered(*src)).records)
                        =~= before.push(record@) + drain(buffered(*src)).records);
                },
                Ok(None) => {
                    if src.len() == len {
                        break ;
                    }
                },
                Err(e) => {
                    assert(before + Seq::<LogRecord>::empty() =~= before);
                    return (records, Some(e));
                },
            }
        }
        assert(record_views(records@) + Seq::<LogRecord>::empty() =~= record_views(records@));
        (records, None)
    }
}

/// What the JSON parser reported of a line that it refused: whether the line
/// was well formed and only of the wrong shape, the parser's message, and the
/// column at which it gave up.
#[derive(Debug, Clone, PartialEq, Eq)]
pub struct JsonFailure {
    pub data: bool,
    pub message: String,
    pub column: usize,
}

/// `JsonFailure` as a mathematical value.
pub struct JsonFailureView {
    pub data: bool,
    pub message: Seq<char>,
    pub column: usize,
}

impl View for JsonFailure {
    type V = JsonFailureView;

    open spec fn view(&self) -> JsonFailureView {
        JsonFailureView { data: self.data, message: self.message@, column: self.column }
    }
}

/// `serde_json::Error`, which the JSON parser fails with.
#[verifier::external_type_specification]
#[verifier::external_body]
pub struct ExJsonError(serde_json::Error);

/// Whether a parser error is of the category "data": the input was well
/// formed and only of the wrong shape.
pub uninterp spec fn json_error_is_data(e: serde_json::Error) -> bool;

/// The column at which a parser error was detected.
pub uninterp spec fn json_error_column(e: serde_json::Error) -> usize;

/// `serde_json::Error::is_data`: whether the error is of the category "data".
pub assume_specification[ serde_json::Error::is_data ](e: &serde_json::Error) -> (data: bool)
    ensures
        data == json_error_is_data(*e),
;

/// `serde_json::Error::column`: the column at which the error was detected.
pub assume_specification[ serde_json::Error::column ](e: &serde_json::Error) -> (column: usize)
    ensures
        column == json_error_column(*e),
;

/// Whether `failure` is what the parser error `e` says: its category, its
/// column, and as the message the text that it is displayed with.
pub open spec fn reports(failure: JsonFailure, e: serde_json::Error) -> bool {
    &&& failure.data == json_error_is_data(e)
    &&& failure.column == json_error_column(e)
    &&& vstd::string::to_string_from_display_ensures::<serde_json::Error>(&e, failure.message)
}

/// The error that a refused line is reported with. A line of the wrong shape
/// is reported with its own text, the parser's message and the column, or as
/// `InvalidEncoding` where it is not UTF-8 and so has no text; any other
/// refusal is a syntax error, reported without the line.
pub open spec fn json_refusal(line: Seq<u8>, failure: JsonFailureView) -> DecodeErrorView {
    if !failure.data {
        DecodeErrorView::SyntaxError { cause: failure.message }
    } else if valid_utf8(line) {
        DecodeErrorView::DataMismatch {
            message: failure.message,
            column: failure.column,
            raw_line: decode_utf8(line),
        }
    } else {
        DecodeErrorView::InvalidEncoding
    }
}

/// The error for a line that the parser refused with `failure`.
pub fn refusal(line: &[u8], failure: JsonFailure) -> (error: DecodeError)
    ensures
        error@ == json_refusal(line@, failure@),
{
    if !failure.data {
        return DecodeError::SyntaxError { cause: failure.message };
    }
    match core::str::from_utf8(line) {
        Ok(text) => {
            proof {
                vstd::utf8::encode_utf8_decode_utf8(text@);
            }
            DecodeError::DataMismatch {
                message: failure.message,
                column: failure.column,
                raw_line: text.to_owned(),
            }
        },
        Err(_) => DecodeError::InvalidEncoding,
    }
}

/// What the parser says of a refused line.
fn failure_of(e: &serde_json::Error) -> (failure: JsonFailure)
    ensures
        reports(failure, *e),
{
    JsonFailure { data: e.is_data(), message: e.to_string(), column: e.column() }
}

/// The decoder of newline-delimited JSON whose lines hold values of type `T`.
/// It keeps nothing between calls.
pub struct JsonLineDecoder<T> {
    ty: core::marker::PhantomData<T>,
}

impl<T> JsonLineDecoder<T> {
    /// A decoder.
    #[inline]
    pub fn new() -> (decoder: JsonLineDecoder<T>) {
        JsonLineDecoder { ty: core::marker::PhantomData }
    }

    /// Decodes the first line in `src`, if `src` holds a whole one, with
    /// `parse`, which stands for the JSON parser at the type `T`. Without a
    /// newline in it the buffer is left alone and the answer is `Ok(None)`:
    /// more bytes are needed. Else the first line and its newline leave the
    /// buffer and the line, without the newline, is handed to `parse`. A value
    /// that `parse` returns is the answer; an error that it returns is
    /// reported as `refusal` says of its category, its column and the text
    /// that it is displayed with.
    pub fn decode<F>(&mut self, src: &mut BytesMut, parse: F) -> (result: Result<Option<T>, DecodeError>)
        where F: FnOnce(&[u8]) -> Result<T, serde_json::Error>
        requires
            forall|line: &[u8]| call_requires(parse, (line,)),
        ensures
            match first_newline(buffered(*old(src))) {
                None => result == Ok::<Option<T>, DecodeError>(None) && buffered(*final(src))
                    == buffered(*old(src)),
                Some(_) => buffered(*final(src)) == after_first_line(buffered(*old(src)))
                    && match result {
                    Ok(None) => false,
                    Ok(Some(value)) => exists|line: &[u8]|
                        line@ == first_line(buffered(*old(src))) && call_ensures(
                            parse,
                            (line,),
                            Ok::<T, serde_json::Error>(value),
                        ),
                    Err(error) => exists|line: &[u8], e: serde_json::Error, failure: JsonFailure|
                        line@ == first_line(buffered(*old(src))) && call_ensures(
                            parse,
                            (line,),
                            Err::<T, serde_json::Error>(e),
                        ) && reports(failure, e) && error@ == json_refusal(line@, failure@),
                },
            },
    {
        match take_line(src) {
            None => Ok(None),
            Some(taken) => {
                let raw = bytes_of(&taken);
                let line = &raw[0..raw.len() - 1];
                assert(line@ == first_line(buffered(*old(src))));
                match parse(line) {
                    Ok(value) => Ok(Some(value)),
                    Err(e) => {
                        let failure = failure_of(&e);
                        let error = refusal(line, failure);
                        assert(error@ == json_refusal(line@, failure@));
                        Err(error)
                    },
                }
            },
        }
    }
}

/// What the upstream chunk stream answered when it was polled.
#[derive(Debug, Clone, PartialEq, Eq)]
pub enum Polled {
    /// The next chunk.
    Chunk(Vec<u8>),
    /// The stream has ended.
    End,
    /// Nothing yet: the stream is suspended.
    NotReady,
    /// The stream failed; the failure's description.
    Failed(String),
}

/// `Polled` as a mathematical value.
pub enum PolledView {
    Chunk(Seq<u8>),
    End,
    NotReady,
    Failed(Seq<char>),
}

impl View for Polled {
    type V = PolledView;

    open spec fn view(&self) -> PolledView {
        match *self {
            Polled::Chunk(chunk) => PolledView::Chunk(chunk@),
            Polled::End => PolledView::End,
            Polled::NotReady => PolledView::NotReady,
            Polled::Failed(description) => PolledView::Failed(description@),
        }
    }
}

/// Where a stream reader stands: it holds no chunk, or it holds one of which
/// the bytes from `offset` on are still to be handed out, or the stream has
/// ended and nothing more will come.
pub enum ReadCursor {
    Idle,
    Holding { chunk: Seq<u8>, offset: int },
    Ended,
}

/// The cursor of an idle reader after the upstream's answer to a poll: a
/// chunk is held from its first byte on, the end of the stream is final, and
/// after a suspension or a failure the reader is idle as before.
pub open spec fn supplied_cursor(polled: PolledView) -> ReadCursor {
    match polled {
        PolledView::Chunk(chunk) => ReadCursor::Holding { chunk, offset: 0 },
        PolledView::End => ReadCursor::Ended,
        PolledView::NotReady => ReadCursor::Idle,
        PolledView::Failed(_) => ReadCursor::Idle,
    }
}

/// The number of bytes that a read with room for `room` bytes hands out of a
/// chunk of which `left` bytes are still unread.
pub open spec fn read_len(room: int, left: int) -> int {
    if room <= left {
        room
    } else {
        left
    }
}

/// The cursor after `n` more bytes of the held chunk were handed out: the
/// reader lets go of a chunk that is used up.
pub open spec fn advanced(chunk: Seq<u8>, offset: int, n: int) -> ReadCursor {
    if offset + n == chunk.len() {
        ReadCursor::Idle
    } else {
        ReadCursor::Holding { chunk, offset: offset + n }
    }
}

/// What a read that ends on the upstream's answer returns: nothing where the
/// answer is a chunk, since the read then goes on with that chunk; 0 bytes at
/// the end of the stream; `WouldBlock` where the stream is suspended; and the
/// stream's failure.
pub open spec fn supplied(polled: PolledView) -> Option<Result<usize, ReadErrorView>> {
    match polled {
        PolledView::Chunk(_) => None,
        PolledView::End => Some(Ok(0)),
        PolledView::NotReady => Some(Err(ReadErrorView::WouldBlock)),
        PolledView::Failed(description) => Some(Err(ReadErrorView::UpstreamFailure { description })),
    }
}

/// Whether `result` is what `outcome` describes.
pub open spec fn supply_matches(
    result: Option<Result<usize, ReadError>>,
    outcome: Option<Result<usize, ReadErrorView>>,
) -> bool {
    match result {
        None => outcome is None,
        Some(Ok(n)) => outcome == Some(Ok::<usize, ReadErrorView>(n)),
        Some(Err(e)) => outcome == Some(Err::<usize, ReadErrorView>(e@)),
    }
}

enum ReadState {
    Ready(Vec<u8>, usize),
    NotReady,
    Ended,
}

/// Hands out the bytes of a chunk stream through reads that fill a buffer and
/// never wait. The reader holds at most the one chunk that it is handing out;
/// the stream itself stays with the caller, who polls it when a read asks for
/// that and supplies the answer. Once the stream has ended the reader asks
/// for no further poll: every later read hands out 0 bytes.
pub struct StreamReader {
    state: ReadState,
}

/// Copies bytes of `chunk`, from `start` on, to the front of `buf`: as many
/// as there are, or as `buf` has room for.
fn copy_from_chunk(chunk: &Vec<u8>, start: usize, buf: &mut [u8]) -> (n: usize)
    requires
        start <= chunk.len(),
    ensures
        n == read_len(old(buf)@.len() as int, chunk.len() - start),
        final(buf)@ == chunk@.subrange(start as int, start + n) + old(buf)@.skip(n as int),
{
    let left = chunk.len() - start;
    let n = if buf.len() <= left {
        buf.len()
    } else {
        left
    };
    let mut i: usize = 0;
    while i < n
        invariant
            i <= n,
            n <= buf@.len(),
            start + n <= chunk.len(),
            buf@.len() == old(buf)@.len(),
            buf@ == chunk@.subrange(start as int, start + i) + old(buf)@.skip(i as int),
        decreases n - i,
    {
        buf[i] = chunk[start + i];
        i += 1;
        assert(buf@ =~= chunk@.subrange(start as int, start + i) + old(buf)@.skip(i as int));
    }
    n
}

impl StreamReader {
    #[verifier::type_invariant]
    spec fn inv(self) -> bool {
        match self.state {
            ReadState::Ready(chunk, pos) => pos <= chunk.len(),
            ReadState::NotReady => true,
            ReadState::Ended => true,
        }
    }

    /// Where the reader stands.
    pub closed spec fn cursor(&self) -> ReadCursor {
        match self.state {
            ReadState::Ready(chunk, pos) => ReadCursor::Holding { chunk: chunk@, offset: pos as int },
            ReadState::NotReady => ReadCursor::Idle,
            ReadState::Ended => ReadCursor::Ended,
        }
    }

    /// A reader that holds no chunk.
    #[inline]
    pub fn new() -> (reader: StreamReader)
        ensures
            reader.cursor() == ReadCursor::Idle,
    {
        StreamReader { state: ReadState::NotReady }
    }

    /// Whether the reader holds no chunk and the stream has not ended: the
    /// next read will ask for a poll.
    pub fn is_idle(&self) -> (idle: bool)
        ensures
            idle == (self.cursor() is Idle),
    {
        match &self.state {
            ReadState::Ready(_, _) => false,
            ReadState::NotReady => true,
            ReadState::Ended => false,
        }
    }

    /// Whether the stream has ended.
    pub fn is_ended(&self) -> (ended: bool)
        ensures
            ended == (self.cursor() is Ended),
    {
        match &self.state {
            ReadState::Ready(_, _) => false,
            ReadState::NotReady => false,
            ReadState::Ended => true,
        }
    }

    /// Fills the front of `buf` from the held chunk. A reader that holds a
    /// chunk hands out what is left of it, or as much of that as `buf` has
    /// room for, lets go of the chunk if it is used up, and returns the number
    /// of bytes: the read is complete, and never goes on into a further
    /// chunk. An idle reader changes nothing and returns `None`: the caller
    /// is to poll the upstream and `supply` the answer. After the end of the
    /// stream the read is complete with 0 bytes, nothing changes, and no poll
    /// is asked for: the end is final.
    pub fn read(&mut self, buf: &mut [u8]) -> (copied: Option<usize>)
        ensures
            match old(self).cursor() {
                ReadCursor::Idle => copied is None && final(self).cursor() == ReadCursor::Idle
                    && final(buf)@ == old(buf)@,
                ReadCursor::Ended => copied == Some(0usize) && final(self).cursor()
                    == ReadCursor::Ended && final(buf)@ == old(buf)@,
                ReadCursor::Holding { chunk, offset } => {
                    let n = read_len(old(buf)@.len() as int, chunk.len() - offset);
                    &&& 0 <= offset <= chunk.len()
                    &&& copied == Some(n as usize)
                    &&& final(buf)@ == chunk.subrange(offset, offset + n) + old(buf)@.skip(n)
                    &&& final(self).cursor() == advanced(chunk, offset, n)
                },
            },
    {
        proof {
            use_type_invariant(&*self);
        }
        let mut state = ReadState::NotReady;
        core::mem::swap(&mut self.state, &mut state);
        match state {
            ReadState::Ready(chunk, pos) => {
                let n = copy_from_chunk(&chunk, pos, buf);
                if pos + n != chunk.len() {
                    self.state = ReadState::Ready(chunk, pos + n);
                }
                Some(n)
            },
            ReadState::NotReady => None,
            ReadState::Ended => {
                self.state = ReadState::Ended;
                Some(0)
            },
        }
    }

    /// Takes the upstream's answer to the poll that a read asked for. A chunk
    /// is held from its first byte on, and the read is to be tried again;
    /// every other answer ends the read: the end of the stream with 0 bytes,
    /// after which the reader has ended for good; a suspended stream with
    /// `WouldBlock` and a failed one with its failure, after which the reader
    /// is idle as before.
    pub fn supply(&mut self, polled: Polled) -> (outcome: Option<Result<usize, ReadError>>)
        requires
            old(self).cursor() is Idle,
        ensures
            supply_matches(outcome, supplied(polled@)),
            final(self).cursor() == supplied_cursor(polled@),
    {
        match polled {
            Polled::Chunk(chunk) => {
                self.state = ReadState::Ready(chunk, 0);
                None
            },
            Polled::End => {
                self.state = ReadState::Ended;
                Some(Ok(0))
            },
            Polled::NotReady => Some(Err(ReadError::WouldBlock)),
            Polled::Failed(description) => Some(Err(ReadError::UpstreamFailure { description })),
        }
    }
}

} // verus!
