//! The stream forwarder: the bytes of one output stream of the backend are
//! cut into lines, and every line that is valid UTF-8 becomes one event.
//!
//! The host reads the pipe and hands over the bytes as they arrive, in chunks
//! of any size. Where the chunks are cut makes no difference to the events.

use crate::events::StreamKind;
use vstd::prelude::*;
use vstd::utf8::{decode_utf8, valid_utf8};

verus! {

/// The byte that ends a line.
pub const NEWLINE: u8 = 0x0A;

/// The byte that is dropped along with the newline it stands before.
pub const CARRIAGE_RETURN: u8 = 0x0D;

/// One line of output, tagged with the stream it came from.
#[derive(Debug, PartialEq, Eq)]
pub struct LineEvent {
    pub stream: StreamKind,
    pub line: String,
}

pub struct LineEventView {
    pub stream: StreamKind,
    pub line: Seq<char>,
}

impl View for LineEvent {
    type V = LineEventView;

    open spec fn view(&self) -> LineEventView {
        LineEventView { stream: self.stream, line: self.line@ }
    }
}

/// The views of a sequence of events.
pub open spec fn events_view(events: Seq<LineEvent>) -> Seq<LineEventView> {
    events.map_values(|e: LineEvent| e@)
}

/// A line without the carriage return that stood before its newline.
pub open spec fn strip_cr(line: Seq<u8>) -> Seq<u8> {
    if line.len() > 0 && line.last() == CARRIAGE_RETURN {
        line.drop_last()
    } else {
        line
    }
}

/// Bytes cut into lines.
pub struct Framed {
    /// The lines that a newline has ended, without their line ends.
    pub lines: Seq<Seq<u8>>,
    /// The bytes after the last newline.
    pub pending: Seq<u8>,
}

/// `chunk` cut into lines, with `pending` standing before it as the
/// beginning of its first line.
pub open spec fn feed(pending: Seq<u8>, chunk: Seq<u8>) -> Framed
    decreases chunk.len(),
{
    if chunk.len() == 0 {
        Framed { lines: Seq::empty(), pending }
    } else {
        let before = feed(pending, chunk.drop_last());
        if chunk.last() == NEWLINE {
            Framed { lines: before.lines.push(strip_cr(before.pending)), pending: Seq::empty() }
        } else {
            Framed { lines: before.lines, pending: before.pending.push(chunk.last()) }
        }
    }
}

/// What is left at the end of the stream is a last line, unless it is empty.
pub open spec fn tail_line(pending: Seq<u8>) -> Seq<Seq<u8>> {
    if pending.len() == 0 {
        Seq::empty()
    } else {
        seq![pending]
    }
}

/// The events of a sequence of lines: one for each line that is valid
/// UTF-8, in order; the other lines are dropped.
pub open spec fn decode_lines(stream: StreamKind, lines: Seq<Seq<u8>>) -> Seq<LineEventView>
    decreases lines.len(),
{
    if lines.len() == 0 {
        Seq::empty()
    } else {
        let before = decode_lines(stream, lines.drop_last());
        if valid_utf8(lines.last()) {
            before.push(LineEventView { stream, line: decode_utf8(lines.last()) })
        } else {
            before
        }
    }
}

/// Everything that is published for a stream that held `bytes` from its
/// first byte to its end.
pub open spec fn forwarded(stream: StreamKind, bytes: Seq<u8>) -> Seq<LineEventView> {
    let framed = feed(Seq::empty(), bytes);
    decode_lines(stream, framed.lines + tail_line(framed.pending))
}

/// Lines written out one after the other, each with a newline behind it.
pub open spec fn join_lines(lines: Seq<Seq<u8>>) -> Seq<u8>
    decreases lines.len(),
{
    if lines.len() == 0 {
        Seq::empty()
    } else {
        join_lines(lines.drop_last()) + lines.last() + seq![NEWLINE]
    }
}

/// No byte of `line` is a newline.
pub open spec fn newline_free(line: Seq<u8>) -> bool {
    forall|i: int| 0 <= i < line.len() ==> line[i] != NEWLINE
}

/// Calls `String::from_utf8` of the standard library and drops the reason of
/// a failure. The contract is taken on trust from its documentation: the
/// call succeeds exactly on valid UTF-8, and the text it returns is the one
/// that the bytes encode.
#[verifier::external_body]
fn text_from_utf8(bytes: Vec<u8>) -> (text: Option<String>)
    ensures
        text is Some <==> valid_utf8(bytes@),
        text matches Some(t) ==> t@ == decode_utf8(bytes@),
{
    String::from_utf8(bytes).ok()
}

/// The state of one forwarder: the stream it reads, and the bytes of the
/// line that no newline has ended yet.
pub struct LineFramer {
    stream: StreamKind,
    pending: Vec<u8>,
}

pub struct LineFramerView {
    pub stream: StreamKind,
    pub pending: Seq<u8>,
}

impl View for LineFramer {
    type V = LineFramerView;

    closed spec fn view(&self) -> LineFramerView {
        LineFramerView { stream: self.stream, pending: self.pending@ }
    }
}

impl LineFramer {
    /// A forwarder at the beginning of `stream`.
    pub fn new(stream: StreamKind) -> (framer: LineFramer)
        ensures
            framer@.stream == stream,
            framer@.pending.len() == 0,
    {
        LineFramer { stream, pending: Vec::new() }
    }

    pub fn stream(&self) -> (stream: StreamKind)
        ensures
            stream == self@.stream,
    {
        self.stream
    }

    /// How many bytes wait for their newline.
    pub fn pending_len(&self) -> (len: usize)
        ensures
            len == self@.pending.len(),
    {
        self.pending.len()
    }

    /// Turns one finished line into its event, if it is valid UTF-8.
    fn emit(stream: StreamKind, line: Vec<u8>, events: &mut Vec<LineEvent>, Ghost(lines): Ghost<Seq<Seq<u8>>>)
        requires
            events_view(old(events)@) == decode_lines(stream, lines),
        ensures
            events_view(final(events)@) == decode_lines(stream, lines.push(line@)),
    {
        let ghost bytes = line@;
        let ghost before = events_view(events@);
        assert(lines.push(bytes).drop_last() =~= lines);
        match text_from_utf8(line) {
            Some(text) => {
                let event = LineEvent { stream, line: text };
                events.push(event);
                assert(events_view(events@) =~= before.push(event@));
            },
            None => {},
        }
    }

    /// Takes the next bytes of the stream and returns the events of the
    /// lines that they end, in order.
    pub fn push(&mut self, chunk: &[u8]) -> (events: Vec<LineEvent>)
        ensures
            final(self)@.stream == old(self)@.stream,
            final(self)@.pending == feed(old(self)@.pending, chunk@).pending,
            events_view(events@) == decode_lines(
                old(self)@.stream,
                feed(old(self)@.pending, chunk@).lines,
            ),
    {
        let ghost start = self.pending@;
        let stream = self.stream;
        let mut events: Vec<LineEvent> = Vec::new();
        let ghost mut lines: Seq<Seq<u8>> = Seq::empty();
        let mut i: usize = 0;
        assert(events_view(events@) =~= decode_lines(stream, lines));
        assert(chunk@.take(0) =~= Seq::<u8>::empty());
        while i < chunk.len()
            invariant
                i <= chunk.len(),
                self.stream == stream,
                lines == feed(start, chunk@.take(i as int)).lines,
                self.pending@ == feed(start, chunk@.take(i as int)).pending,
                events_view(events@) == decode_lines(stream, lines),
            decreases chunk.len() - i,
        {
            let byte = chunk[i];
            proof {
                let next = chunk@.take(i + 1);
                assert(next.drop_last() =~= chunk@.take(i as int));
                assert(next.last() == byte);
            }
            if byte == NEWLINE {
                let mut line: Vec<u8> = Vec::new();
                std::mem::swap(&mut line, &mut self.pending);
                let ghost whole = line@;
                let n = line.len();
                if n > 0 && line[n - 1] == CARRIAGE_RETURN {
                    line.pop();
                }
                assert(line@ =~= strip_cr(whole));
                Self::emit(stream, line, &mut events, Ghost(lines));
                proof {
                    lines = lines.push(strip_cr(whole));
                }
                assert(self.pending@ =~= Seq::<u8>::empty());
            } else {
                self.pending.push(byte);
            }
            i += 1;
        }
        assert(chunk@.take(i as int) =~= chunk@);
        events
    }

    /// Ends the stream: what waited for a newline is the last line, and the
    /// forwarder is back at the beginning.
    pub fn finish(&mut self) -> (events: Vec<LineEvent>)
        ensures
            final(self)@.stream == old(self)@.stream,
            final(self)@.pending.len() == 0,
            events_view(events@) == decode_lines(old(self)@.stream, tail_line(old(self)@.pending)),
    {
        let stream = self.stream;
        let mut events: Vec<LineEvent> = Vec::new();
        assert(events_view(events@) =~= decode_lines(stream, Seq::empty()));
        let mut line: Vec<u8> = Vec::new();
        std::mem::swap(&mut line, &mut self.pending);
        if line.len() > 0 {
            assert(Seq::<Seq<u8>>::empty().push(line@) =~= tail_line(line@));
            Self::emit(stream, line, &mut events, Ghost(Seq::empty()));
        }
        events
    }
}

/// The events of a stream whose bytes are all at hand.
pub fn forward_all(stream: StreamKind, bytes: &[u8]) -> (events: Vec<LineEvent>)
    ensures
        events_view(events@) == forwarded(stream, bytes@),
{
    let mut framer = LineFramer::new(stream);
    assert(framer@.pending =~= Seq::<u8>::empty());
    let mut events = framer.push(bytes);
    let mut last = framer.finish();
    let ghost framed = feed(Seq::empty(), bytes@);
    let ghost head = events_view(events@);
    let ghost tail = events_view(last@);
    events.append(&mut last);
    proof {
        law_decoding_keeps_order(stream, framed.lines, tail_line(framed.pending));
        assert(events_view(events@) =~= head + tail);
    }
    events
}

/// Lines are decoded one by one: the events of two runs of lines are the
/// events of the first followed by the events of the second.
pub proof fn law_decoding_keeps_order(stream: StreamKind, a: Seq<Seq<u8>>, b: Seq<Seq<u8>>)
    ensures
        decode_lines(stream, a + b) == decode_lines(stream, a) + decode_lines(stream, b),
    decreases b.len(),
{
    if b.len() == 0 {
        assert(a + b =~= a);
        assert(decode_lines(stream, a) + decode_lines(stream, b) =~= decode_lines(stream, a));
    } else {
        law_decoding_keeps_order(stream, a, b.drop_last());
        assert((a + b).drop_last() =~= a + b.drop_last());
        assert((a + b).last() == b.last());
        let head = decode_lines(stream, a);
        let init = decode_lines(stream, b.drop_last());
        if valid_utf8(b.last()) {
            let event = LineEventView { stream, line: decode_utf8(b.last()) };
            assert((head + init).push(event) =~= head + init.push(event));
        }
    }
}

/// Bytes without a newline end no line: they only wait.
pub proof fn law_no_newline_no_line(pending: Seq<u8>, chunk: Seq<u8>)
    requires
        newline_free(chunk),
    ensures
        feed(pending, chunk).lines.len() == 0,
        feed(pending, chunk).pending == pending + chunk,
    decreases chunk.len(),
{
    if chunk.len() == 0 {
        assert(pending + chunk =~= pending);
    } else {
        law_no_newline_no_line(pending, chunk.drop_last());
        assert(pending + chunk =~= (pending + chunk.drop_last()).push(chunk.last()));
    }
}

/// Where the stream is cut into chunks makes no difference: two chunks fed
/// one after the other give the lines, and leave the bytes waiting, that the
/// two give as one.
pub proof fn law_chunking_is_invisible(pending: Seq<u8>, a: Seq<u8>, b: Seq<u8>)
    ensures
        feed(pending, a + b).lines == feed(pending, a).lines + feed(
            feed(pending, a).pending,
            b,
        ).lines,
        feed(pending, a + b).pending == feed(feed(pending, a).pending, b).pending,
    decreases b.len(),
{
    let first = feed(pending, a);
    if b.len() == 0 {
        assert(a + b =~= a);
        assert(first.lines + feed(first.pending, b).lines =~= first.lines);
    } else {
        law_chunking_is_invisible(pending, a, b.drop_last());
        assert((a + b).drop_last() =~= a + b.drop_last());
        assert((a + b).last() == b.last());
        let second = feed(first.pending, b.drop_last());
        if b.last() == NEWLINE {
            assert((first.lines + second.lines).push(strip_cr(second.pending)) =~= first.lines
                + second.lines.push(strip_cr(second.pending)));
        }
    }
}

/// A newline ends exactly one line: what waited, then the bytes before the
/// newline, without a carriage return at their end.
pub proof fn law_newline_ends_one_line(pending: Seq<u8>, line: Seq<u8>)
    requires
        newline_free(line),
    ensures
        feed(pending, line + seq![NEWLINE]).lines == seq![strip_cr(pending + line)],
        feed(pending, line + seq![NEWLINE]).pending.len() == 0,
{
    let chunk = line + seq![NEWLINE];
    assert(chunk.drop_last() =~= line);
    assert(chunk.last() == NEWLINE);
    law_no_newline_no_line(pending, line);
    assert(feed(pending, chunk).lines =~= seq![strip_cr(pending + line)]);
}

/// A stream of N lines, each ended by a newline, is cut into exactly those
/// N lines, in order, and nothing is left waiting.
pub proof fn law_framing_is_complete(lines: Seq<Seq<u8>>)
    requires
        forall|i: int| 0 <= i < lines.len() ==> newline_free(#[trigger] lines[i]),
    ensures
        feed(Seq::empty(), join_lines(lines)).lines == lines.map_values(|l: Seq<u8>| strip_cr(l)),
        feed(Seq::empty(), join_lines(lines)).pending.len() == 0,
    decreases lines.len(),
{
    let stripped = lines.map_values(|l: Seq<u8>| strip_cr(l));
    if lines.len() == 0 {
        assert(feed(Seq::empty(), join_lines(lines)).lines =~= stripped);
    } else {
        let init = lines.drop_last();
        let last = lines.last();
        law_framing_is_complete(init);
        let head = join_lines(init);
        assert(join_lines(lines) =~= head + (last + seq![NEWLINE]));
        law_chunking_is_invisible(Seq::empty(), head, last + seq![NEWLINE]);
        let waiting = feed(Seq::empty(), head).pending;
        assert(waiting =~= Seq::<u8>::empty());
        law_newline_ends_one_line(waiting, last);
        assert(waiting + last =~= last);
        assert(init.map_values(|l: Seq<u8>| strip_cr(l)) + seq![strip_cr(last)] =~= stripped);
    }
}

/// The events of lines that are all valid UTF-8: one for each, in order.
pub proof fn law_valid_lines_all_decode(stream: StreamKind, lines: Seq<Seq<u8>>)
    requires
        forall|i: int| 0 <= i < lines.len() ==> valid_utf8(#[trigger] lines[i]),
    ensures
        decode_lines(stream, lines) == lines.map_values(
            |l: Seq<u8>| LineEventView { stream, line: decode_utf8(l) },
        ),
    decreases lines.len(),
{
    let all = lines.map_values(|l: Seq<u8>| LineEventView { stream, line: decode_utf8(l) });
    if lines.len() == 0 {
        assert(decode_lines(stream, lines) =~= all);
    } else {
        let init = lines.drop_last();
        law_valid_lines_all_decode(stream, init);
        assert(valid_utf8(lines.last()));
        assert(decode_lines(stream, lines) =~= all);
    }
}

/// A backend that writes N lines and exits has exactly N events published,
/// one for each line, in the order written. A line is any run of bytes that
/// is valid UTF-8 and holds no newline, and that does not end in a carriage
/// return.
pub proof fn law_forwarding_is_complete(stream: StreamKind, lines: Seq<Seq<u8>>)
    requires
        forall|i: int| 0 <= i < lines.len() ==> newline_free(#[trigger] lines[i]),
        forall|i: int| 0 <= i < lines.len() ==> valid_utf8(#[trigger] lines[i]),
        forall|i: int| 0 <= i < lines.len() ==> strip_cr(#[trigger] lines[i]) == lines[i],
    ensures
        forwarded(stream, join_lines(lines)).len() == lines.len(),
        forall|i: int|
            0 <= i < lines.len() ==> #[trigger] forwarded(stream, join_lines(lines))[i] == (
            LineEventView { stream, line: decode_utf8(lines[i]) }),
{
    law_framing_is_complete(lines);
    let framed = feed(Seq::empty(), join_lines(lines));
    assert(framed.lines =~= lines);
    assert(framed.lines + tail_line(framed.pending) =~= lines);
    law_valid_lines_all_decode(stream, lines);
}

/// The events do not depend on how the host cut the stream: feeding `a`,
/// then `b`, then ending the stream publishes what the whole stream
/// publishes.
pub proof fn law_forwarding_ignores_chunking(stream: StreamKind, a: Seq<u8>, b: Seq<u8>)
    ensures
        ({
            let first = feed(Seq::empty(), a);
            let second = feed(first.pending, b);
            decode_lines(stream, first.lines) + decode_lines(stream, second.lines) + decode_lines(
                stream,
                tail_line(second.pending),
            ) == forwarded(stream, a + b)
        }),
{
    let first = feed(Seq::empty(), a);
    let second = feed(first.pending, b);
    law_chunking_is_invisible(Seq::empty(), a, b);
    law_decoding_keeps_order(stream, first.lines, second.lines);
    law_decoding_keeps_order(stream, first.lines + second.lines, tail_line(second.pending));
}

} // verus!
