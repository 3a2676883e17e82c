//! Per-event decisions of the two I/O loops.
//!
//! The output reader runs on a context fit for blocking reads: each read
//! yields one event, and the decision for each event is made here. A read
//! of n > 0 bytes republishes exactly those bytes as one chunk; a read of
//! zero bytes is end-of-stream and stops the loop; an interrupted call is
//! retried at once; a would-block error is retried after a brief backoff;
//! any other error stops the loop silently (the exit monitor, not the
//! output stream, reports why the child is gone). The input writer drains
//! a bounded queue: each submitted buffer is written whole, in one write,
//! then flushed; the loop stops when the queue closes.

use vstd::prelude::*;

verus! {

/// One observation of the PTY master's read side.
#[derive(Debug, PartialEq, Eq)]
pub enum ReadEvent {
    /// A successful read of these bytes (never empty in practice).
    Data(Vec<u8>),
    /// A zero-byte read: the child closed its terminal output.
    Eof,
    /// The read call was interrupted by a signal.
    Interrupted,
    /// The handle was not ready; worth a brief pause before retrying.
    WouldBlock,
    /// Any other read error; indistinguishable from end-of-stream here.
    Failed,
}

/// What the reader loop does in response to one event.
#[derive(Debug, PartialEq, Eq)]
pub enum ReadStep {
    /// Publish this chunk to every current subscriber, then read again.
    Publish(Vec<u8>),
    /// Read again immediately.
    Retry,
    /// Sleep briefly, then read again.
    Backoff,
    /// Stop reading; no further chunk is ever published.
    Stop,
}

/// The reader's decision for one event.
pub open spec fn read_step_of(event: ReadEvent) -> ReadStep {
    match event {
        ReadEvent::Data(bytes) => ReadStep::Publish(bytes),
        ReadEvent::Eof => ReadStep::Stop,
        ReadEvent::Interrupted => ReadStep::Retry,
        ReadEvent::WouldBlock => ReadStep::Backoff,
        ReadEvent::Failed => ReadStep::Stop,
    }
}

/// Decide what the reader loop does with one event. Data is republished
/// as read, untouched; end-of-stream and errors stop the loop; interrupted
/// and would-block reads are retried.
pub fn reader_step(event: ReadEvent) -> (step: ReadStep)
    ensures
        step == read_step_of(event),
{
    match event {
        ReadEvent::Data(bytes) => ReadStep::Publish(bytes),
        ReadEvent::Eof => ReadStep::Stop,
        ReadEvent::Interrupted => ReadStep::Retry,
        ReadEvent::WouldBlock => ReadStep::Backoff,
        ReadEvent::Failed => ReadStep::Stop,
    }
}

/// The chunk a successful read of `count` bytes publishes: exactly the
/// first `count` bytes of the read buffer, never merged, split or reordered.
pub fn output_chunk(buf: &[u8], count: usize) -> (chunk: Vec<u8>)
    requires
        count <= buf.len(),
    ensures
        chunk@ == buf@.subrange(0, count as int),
{
    let mut chunk: Vec<u8> = Vec::new();
    let mut i: usize = 0;
    while i < count
        invariant
            i <= count <= buf.len(),
            chunk@ =~= buf@.subrange(0, i as int),
        decreases count - i,
    {
        chunk.push(buf[i]);
        i = i + 1;
    }
    chunk
}

/// An event that ends the stream: end-of-file or a non-retryable error.
pub open spec fn is_stream_end(event: ReadEvent) -> bool {
    event is Eof || event is Failed
}

/// The chunks the reader publishes for a sequence of events: the data
/// payloads, in arrival order, up to but not including the first event
/// that ends the stream.
pub open spec fn published_chunks(events: Seq<ReadEvent>) -> Seq<Seq<u8>>
    decreases events.len(),
{
    if events.len() == 0 {
        seq![]
    } else if is_stream_end(events[0]) {
        seq![]
    } else {
        match events[0] {
            ReadEvent::Data(bytes) => seq![bytes@] + published_chunks(events.skip(1)),
            _ => published_chunks(events.skip(1)),
        }
    }
}

fn copy_bytes(bytes: &Vec<u8>) -> (r: Vec<u8>)
    ensures
        r@ == bytes@,
{
    let mut r: Vec<u8> = Vec::new();
    let mut i: usize = 0;
    while i < bytes.len()
        invariant
            i <= bytes.len(),
            r@ =~= bytes@.subrange(0, i as int),
        decreases bytes.len() - i,
    {
        r.push(bytes[i]);
        i = i + 1;
    }
    proof {
        assert(bytes@.subrange(0, bytes@.len() as int) =~= bytes@);
    }
    r
}

fn dup_event(event: &ReadEvent) -> (r: ReadEvent)
    ensures
        match *event {
            ReadEvent::Data(bytes) => r is Data && r->Data_0@ == bytes@,
            ReadEvent::Eof => r is Eof,
            ReadEvent::Interrupted => r is Interrupted,
            ReadEvent::WouldBlock => r is WouldBlock,
            ReadEvent::Failed => r is Failed,
        },
{
    match event {
        ReadEvent::Data(bytes) => ReadEvent::Data(copy_bytes(bytes)),
        ReadEvent::Eof => ReadEvent::Eof,
        ReadEvent::Interrupted => ReadEvent::Interrupted,
        ReadEvent::WouldBlock => ReadEvent::WouldBlock,
        ReadEvent::Failed => ReadEvent::Failed,
    }
}

/// Run the reader's decisions over a whole sequence of events and collect
/// what gets published: exactly `published_chunks` of the events.
pub fn collect_output(events: &Vec<ReadEvent>) -> (chunks: Vec<Vec<u8>>)
    ensures
        chunks@.map_values(|c: Vec<u8>| c@) == published_chunks(events@),
{
    let mut chunks: Vec<Vec<u8>> = Vec::new();
    let mut i: usize = 0;
    let mut stopped = false;
    proof {
        assert(events@.skip(0) =~= events@);
        assert(chunks@.map_values(|c: Vec<u8>| c@) + published_chunks(events@)
            =~= published_chunks(events@));
    }
    while i < events.len() && !stopped
        invariant
            i <= events.len(),
            stopped ==> chunks@.map_values(|c: Vec<u8>| c@) == published_chunks(events@),
            !stopped ==> chunks@.map_values(|c: Vec<u8>| c@) + published_chunks(events@.skip(i as int))
                == published_chunks(events@),
        decreases events.len() - i,
    {
        proof {
            assert(events@.skip(i as int)[0] == events@[i as int]);
            assert(events@.skip(i as int).skip(1) =~= events@.skip(i as int + 1));
        }
        let step = reader_step(dup_event(&events[i]));
        match step {
            ReadStep::Publish(bytes) => {
                let ghost prev = chunks@;
                let ghost bv = bytes@;
                chunks.push(bytes);
                proof {
                    assert(published_chunks(events@.skip(i as int))
                        == seq![bv] + published_chunks(events@.skip(i as int + 1)));
                    assert(chunks@.map_values(|c: Vec<u8>| c@)
                        =~= prev.map_values(|c: Vec<u8>| c@) + seq![bv]);
                    assert(chunks@.map_values(|c: Vec<u8>| c@)
                        + published_chunks(events@.skip(i as int + 1))
                        =~= prev.map_values(|c: Vec<u8>| c@)
                        + published_chunks(events@.skip(i as int)));
                }
            },
            ReadStep::Stop => {
                stopped = true;
                proof {
                    assert(published_chunks(events@.skip(i as int)) =~= Seq::<Seq<u8>>::empty());
                    assert(chunks@.map_values(|c: Vec<u8>| c@) + Seq::<Seq<u8>>::empty()
                        =~= chunks@.map_values(|c: Vec<u8>| c@));
                }
            },
            _ => {},
        }
        i = i + 1;
    }
    proof {
        if !stopped {
            assert(events@.skip(events@.len() as int) =~= Seq::<ReadEvent>::empty());
            assert(published_chunks(events@.skip(i as int)) =~= Seq::<Seq<u8>>::empty());
            assert(chunks@.map_values(|c: Vec<u8>| c@) + Seq::<Seq<u8>>::empty()
                =~= chunks@.map_values(|c: Vec<u8>| c@));
        }
    }
    chunks
}

/// While the stream has not ended, each successful read appends its bytes
/// as one new chunk after all earlier ones: chunks reach subscribers in
/// read order, never reordered, merged or split.
pub proof fn lemma_output_order_preserved(events: Seq<ReadEvent>, bytes: Vec<u8>)
    requires
        forall|i: int| 0 <= i < events.len() ==> !is_stream_end(#[trigger] events[i]),
    ensures
        published_chunks(events.push(ReadEvent::Data(bytes)))
            == published_chunks(events).push(bytes@),
    decreases events.len(),
{
    let extended = events.push(ReadEvent::Data(bytes));
    if events.len() == 0 {
        assert(extended.len() == 1);
        assert(extended[0] == ReadEvent::Data(bytes));
        assert(extended.skip(1) =~= Seq::<ReadEvent>::empty());
        assert(published_chunks(extended.skip(1)) == Seq::<Seq<u8>>::empty());
        assert(published_chunks(extended) =~= seq![bytes@]);
        assert(published_chunks(events) == Seq::<Seq<u8>>::empty());
        assert(published_chunks(events).push(bytes@) =~= seq![bytes@]);
    } else {
        assert(extended[0] == events[0]);
        assert(extended.skip(1) =~= events.skip(1).push(ReadEvent::Data(bytes)));
        assert(forall|i: int| 0 <= i < events.skip(1).len()
            ==> !is_stream_end(#[trigger] events.skip(1)[i]));
        lemma_output_order_preserved(events.skip(1), bytes);
        match events[0] {
            ReadEvent::Data(first) => {
                assert(published_chunks(extended)
                    =~= seq![first@] + published_chunks(events.skip(1)).push(bytes@));
                assert(published_chunks(events).push(bytes@)
                    =~= seq![first@] + published_chunks(events.skip(1)).push(bytes@));
            },
            _ => {},
        }
    }
}

/// Nothing published after end-of-stream: once an event ends the stream,
/// the events after it contribute no chunk, so a subscriber that joins
/// after the end observes nothing new.
pub proof fn lemma_no_output_after_stream_end(events: Seq<ReadEvent>, k: int)
    requires
        0 <= k < events.len(),
        is_stream_end(events[k]),
    ensures
        published_chunks(events) == published_chunks(events.take(k)),
    decreases k,
{
    if k == 0 {
        assert(published_chunks(events) =~= Seq::<Seq<u8>>::empty());
        assert(events.take(0) =~= Seq::<ReadEvent>::empty());
    } else {
        assert(!is_stream_end(events[0]) || published_chunks(events)
            == published_chunks(events.take(k))) by {
            if is_stream_end(events[0]) {
                assert(events.take(k)[0] == events[0]);
                assert(published_chunks(events) =~= Seq::<Seq<u8>>::empty());
                assert(published_chunks(events.take(k)) =~= Seq::<Seq<u8>>::empty());
            }
        }
        if !is_stream_end(events[0]) {
            assert(events.skip(1)[k - 1] == events[k]);
            lemma_no_output_after_stream_end(events.skip(1), k - 1);
            assert(events.take(k)[0] == events[0]);
            assert(events.take(k).skip(1) =~= events.skip(1).take(k - 1));
            match events[0] {
                ReadEvent::Data(first) => {},
                _ => {},
            }
        }
    }
}

/// One pending submission to the input writer, or the end of them.
#[derive(Debug, PartialEq, Eq)]
pub enum InputEvent {
    /// A producer submitted this buffer.
    Submitted(Vec<u8>),
    /// Every producer is gone and the queue is drained.
    Closed,
}

/// What the writer loop does in response to one event.
#[derive(Debug, PartialEq, Eq)]
pub enum WriteStep {
    /// Write this whole buffer in one blocking write, then flush. A write
    /// or flush failure is swallowed: the exit monitor, not this loop, is
    /// the authority on why the child is gone.
    WriteAll(Vec<u8>),
    /// Stop: no buffer will ever arrive again.
    Stop,
}

/// The writer's decision for one event.
pub open spec fn write_step_of(event: InputEvent) -> WriteStep {
    match event {
        InputEvent::Submitted(bytes) => WriteStep::WriteAll(bytes),
        InputEvent::Closed => WriteStep::Stop,
    }
}

/// Decide what the input writer does with one dequeued event: a submitted
/// buffer is written whole — exactly the bytes submitted, in one write,
/// so one producer's buffer never interleaves with another's — and a
/// closed queue stops the loop.
pub fn writer_step(event: InputEvent) -> (step: WriteStep)
    ensures
        step == write_step_of(event),
{
    match event {
        InputEvent::Submitted(bytes) => WriteStep::WriteAll(bytes),
        InputEvent::Closed => WriteStep::Stop,
    }
}

/// Each submitted buffer is handed to the PTY as a single write of exactly
/// its own bytes: the writer never splits a buffer and never mixes bytes
/// of two submissions into one write.
pub proof fn lemma_submitted_buffer_written_whole(bytes: Vec<u8>)
    ensures
        write_step_of(InputEvent::Submitted(bytes)) == WriteStep::WriteAll(bytes),
{
}

} // verus!
