//! The per-session reader loop, as a verified state machine.
//!
//! One loop runs per session, on its own thread of execution: it drains the
//! PTY's output side, forwards each chunk as decoded text, and once the
//! stream ends waits for the child and forwards its exit code.  The blocking
//! calls live behind `observe_read` and `observe_exit`; every decision —
//! which state comes next and which event, if any, goes to the sink — is the
//! pure step function `reader_step`, so the ordering guarantee (every data
//! event of a session precedes its exit event) is a theorem about traces.

use vstd::prelude::*;

use crate::backend::ChildProc;
use crate::backend::PtyReader;
use crate::backend::child_wait;
use crate::backend::lossy_decode;
use crate::backend::lossy_text_of;
use crate::backend::reader_read;

verus! {

/// How many bytes one blocking read may hand back at most.
pub const CHUNK_SIZE: usize = 8192;

/// A chunk of terminal output bound for the event sink.
pub struct TerminalData {
    pub id: String,
    pub data: String,
}

/// The exit notification for a session whose child process has terminated.
pub struct TerminalExit {
    pub id: String,
    pub exit_code: i32,
}

/// What a reader loop observed from the outside world in one step.
pub enum ReadEvent {
    /// A successful read of the bytes carried here.
    Chunk(Vec<u8>),
    /// A zero-byte read: the output stream ended cleanly.
    Eof,
    /// A failing read; treated exactly like end-of-stream.
    ReadFailed,
    /// The child process terminated with this exit code.
    ChildExited(i32),
    /// Waiting for the child failed; the loop ends without an exit event.
    WaitFailed,
}

/// The states of a session's reader loop.
#[derive(Clone, Copy, Debug, PartialEq, Eq, Structural)]
pub enum ReaderState {
    /// Draining the output stream.
    Reading,
    /// The stream has ended; waiting on the child's termination.
    AwaitingExit,
    /// Terminal: the loop is over and emits nothing further.
    Exited,
}

/// What a step tells the driver to push to the event sink.
pub enum SinkEvent {
    Data(TerminalData),
    Exit(TerminalExit),
}

/// A `ReadEvent` with the machine-level payloads abstracted.
pub enum EventModel {
    Chunk(Seq<u8>),
    Eof,
    ReadFailed,
    ChildExited(int),
    WaitFailed,
}

/// A sink event with the payloads abstracted: the decoded text of a data
/// event, or the code of an exit event.
pub enum OutputModel {
    Data(Seq<char>),
    Exit(int),
}

pub open spec fn event_model(ev: ReadEvent) -> EventModel {
    match ev {
        ReadEvent::Chunk(b) => EventModel::Chunk(b@),
        ReadEvent::Eof => EventModel::Eof,
        ReadEvent::ReadFailed => EventModel::ReadFailed,
        ReadEvent::ChildExited(c) => EventModel::ChildExited(c as int),
        ReadEvent::WaitFailed => EventModel::WaitFailed,
    }
}

pub open spec fn output_model(o: Option<SinkEvent>) -> Option<OutputModel> {
    match o {
        Some(SinkEvent::Data(d)) => Some(OutputModel::Data(d.data@)),
        Some(SinkEvent::Exit(e)) => Some(OutputModel::Exit(e.exit_code as int)),
        None => None,
    }
}

/// The reader loop's transition function: from a state and an observation to
/// the next state and the event to emit, if any.  Output bytes are decoded
/// lossily, so a data event never fails; a read error is treated like a
/// clean end of stream; a failed wait ends the loop silently.  Observations
/// that cannot occur in a state change nothing.
pub open spec fn spec_step(st: ReaderState, ev: EventModel) -> (ReaderState, Option<OutputModel>) {
    match st {
        ReaderState::Reading => match ev {
            EventModel::Chunk(b) => (
                ReaderState::Reading,
                Some(OutputModel::Data(lossy_text_of(b))),
            ),
            EventModel::Eof => (ReaderState::AwaitingExit, None),
            EventModel::ReadFailed => (ReaderState::AwaitingExit, None),
            _ => (ReaderState::Reading, None),
        },
        ReaderState::AwaitingExit => match ev {
            EventModel::ChildExited(c) => (ReaderState::Exited, Some(OutputModel::Exit(c))),
            EventModel::WaitFailed => (ReaderState::Exited, None),
            _ => (ReaderState::AwaitingExit, None),
        },
        ReaderState::Exited => (ReaderState::Exited, None),
    }
}

/// Turns the outcome of one blocking read into the observation the machine
/// steps on: an empty read is a clean end of stream, a non-empty read is a
/// chunk carrying exactly the bytes that arrived, a failing read is treated
/// like end of stream.
pub fn classify_read(r: Result<Vec<u8>, String>) -> (ev: ReadEvent)
    ensures
        r matches Ok(v) ==> (if v@.len() == 0 {
            ev is Eof
        } else {
            ev matches ReadEvent::Chunk(b) && b@ == v@
        }),
        r is Err ==> ev is ReadFailed,
{
    match r {
        Ok(v) => {
            if v.len() == 0 {
                ReadEvent::Eof
            } else {
                ReadEvent::Chunk(v)
            }
        },
        Err(_) => ReadEvent::ReadFailed,
    }
}

/// Turns the outcome of waiting on the child into the observation the
/// machine steps on: a successful wait carries exactly the code it reported,
/// a failed wait ends the loop silently.
pub fn classify_wait(r: Result<i32, String>) -> (ev: ReadEvent)
    ensures
        r matches Ok(code) ==> ev == ReadEvent::ChildExited(code),
        r is Err ==> ev is WaitFailed,
{
    match r {
        Ok(code) => ReadEvent::ChildExited(code),
        Err(_) => ReadEvent::WaitFailed,
    }
}

/// Performs one blocking read on the session's output stream and classifies
/// what happened: a non-empty chunk of at most `CHUNK_SIZE` bytes, a clean
/// end of stream, or a failure.  The classification itself is
/// `classify_read`; only the read is trusted.
pub fn observe_read(rd: &mut PtyReader) -> (ev: ReadEvent)
    ensures
        ev matches ReadEvent::Chunk(v) ==> 0 < v@.len() <= CHUNK_SIZE,
        ev is Chunk || ev is Eof || ev is ReadFailed,
{
    classify_read(reader_read(rd, CHUNK_SIZE))
}

/// Blocks until the session's child process has terminated and classifies
/// the outcome: the exit code it reported, or that waiting failed.  The
/// classification itself is `classify_wait`; only the wait is trusted.
pub fn observe_exit(child: &mut ChildProc) -> (ev: ReadEvent)
    ensures
        ev is ChildExited || ev is WaitFailed,
{
    classify_wait(child_wait(child))
}

/// One step of the reader loop for the session `id`: exactly the transition
/// function, with data chunks decoded to text and every emitted event
/// carrying this session's id.
pub fn reader_step(st: ReaderState, id: &String, ev: ReadEvent) -> (r: (
    ReaderState,
    Option<SinkEvent>,
))
    ensures
        (r.0, output_model(r.1)) == spec_step(st, event_model(ev)),
        r.1 matches Some(SinkEvent::Data(d)) ==> d.id@ == id@,
        r.1 matches Some(SinkEvent::Exit(e)) ==> e.id@ == id@,
{
    match st {
        ReaderState::Reading => match ev {
            ReadEvent::Chunk(b) => {
                let text = lossy_decode(b.as_slice());
                let data = TerminalData { id: id.clone(), data: text };
                (ReaderState::Reading, Some(SinkEvent::Data(data)))
            },
            ReadEvent::Eof => (ReaderState::AwaitingExit, None),
            ReadEvent::ReadFailed => (ReaderState::AwaitingExit, None),
            _ => (ReaderState::Reading, None),
        },
        ReaderState::AwaitingExit => match ev {
            ReadEvent::ChildExited(code) => {
                let exit = TerminalExit { id: id.clone(), exit_code: code };
                (ReaderState::Exited, Some(SinkEvent::Exit(exit)))
            },
            ReadEvent::WaitFailed => (ReaderState::Exited, None),
            _ => (ReaderState::AwaitingExit, None),
        },
        ReaderState::Exited => (ReaderState::Exited, None),
    }
}

/// The whole trace of sink events the machine emits from `st` on the
/// observations `evs`, in order.
pub open spec fn run_outputs(st: ReaderState, evs: Seq<EventModel>) -> Seq<OutputModel>
    decreases evs.len(),
{
    if evs.len() == 0 {
        Seq::empty()
    } else {
        let (st2, out) = spec_step(st, evs[0]);
        (match out {
            Some(o) => seq![o],
            None => Seq::empty(),
        }) + run_outputs(st2, evs.drop_first())
    }
}

/// An exit event can stand only at the very end of a trace: everything
/// emitted before it — in particular every data event — precedes it, and no
/// second exit event can follow.
pub open spec fn exit_only_last(outs: Seq<OutputModel>) -> bool {
    forall|i: int| 0 <= i < outs.len() && outs[i] is Exit ==> i == outs.len() - 1
}

proof fn lemma_exit_only_last_from(st: ReaderState, evs: Seq<EventModel>)
    ensures
        exit_only_last(run_outputs(st, evs)),
        st is Exited ==> run_outputs(st, evs).len() == 0,
    decreases evs.len(),
{
    if evs.len() > 0 {
        let (st2, out) = spec_step(st, evs[0]);
        lemma_exit_only_last_from(st2, evs.drop_first());
        let rest = run_outputs(st2, evs.drop_first());
        match out {
            Some(o) => {
                if o is Exit {
                    assert(st2 is Exited);
                    assert(rest.len() == 0);
                }
            },
            None => {},
        }
    }
}

/// Event ordering, per session: whatever a session's reader loop observes,
/// in the trace it emits every `terminal:data` event precedes the
/// `terminal:exit` event, and at most one exit event is ever emitted.
pub proof fn lemma_data_precedes_exit(evs: Seq<EventModel>)
    ensures
        exit_only_last(run_outputs(ReaderState::Reading, evs)),
{
    lemma_exit_only_last_from(ReaderState::Reading, evs);
}

/// The observations of a session whose stream yields `chunks` and then ends
/// cleanly, and whose wait reports code `c`.
pub open spec fn session_events(chunks: Seq<Seq<u8>>, c: int) -> Seq<EventModel> {
    chunks.map(|i: int, b: Seq<u8>| EventModel::Chunk(b)) + seq![
        EventModel::Eof,
        EventModel::ChildExited(c),
    ]
}

/// The full life of one session's loop: when the stream yields some chunks
/// and then ends, and the wait succeeds with code `c`, the machine emits
/// exactly the chunks' decoded text, in order, followed by exactly one exit
/// event carrying `c`.  The machine never consults the registry, so this
/// holds whether or not the session is still registered when the child
/// exits.
pub proof fn lemma_session_trace(chunks: Seq<Seq<u8>>, c: int)
    ensures
        run_outputs(ReaderState::Reading, session_events(chunks, c)) =~= chunks.map(
            |i: int, b: Seq<u8>| OutputModel::Data(lossy_text_of(b)),
        ) + seq![OutputModel::Exit(c)],
    decreases chunks.len(),
{
    let evs = session_events(chunks, c);
    if chunks.len() == 0 {
        let tail = seq![EventModel::ChildExited(c)];
        assert(evs.drop_first() =~= tail);
        assert(tail.drop_first() =~= Seq::<EventModel>::empty());
        assert(run_outputs(ReaderState::Exited, Seq::empty()) =~= Seq::<OutputModel>::empty());
        assert(run_outputs(ReaderState::AwaitingExit, tail) =~= seq![OutputModel::Exit(c)]);
        assert(run_outputs(ReaderState::Reading, evs) =~= seq![OutputModel::Exit(c)]);
        assert(chunks.map(|i: int, b: Seq<u8>| OutputModel::Data(lossy_text_of(b))) =~= Seq::<
            OutputModel,
        >::empty());
    } else {
        let rest = chunks.drop_first();
        lemma_session_trace(rest, c);
        assert(evs[0] == EventModel::Chunk(chunks[0]));
        assert(evs.drop_first() =~= session_events(rest, c));
        assert(run_outputs(ReaderState::Reading, evs) =~= seq![
            OutputModel::Data(lossy_text_of(chunks[0])),
        ] + run_outputs(ReaderState::Reading, session_events(rest, c)));
        assert(chunks.map(|i: int, b: Seq<u8>| OutputModel::Data(lossy_text_of(b))) =~= seq![
            OutputModel::Data(lossy_text_of(chunks[0])),
        ] + rest.map(|i: int, b: Seq<u8>| OutputModel::Data(lossy_text_of(b))));
    }
}

} // verus!
