//! The shared session context: the message log and the two flags, with the
//! transitions the receiver task and the event loop perform on them.
//!
//! The receiver task turns each read off the connection into a
//! `ReadEvent` and applies it here; the event loop applies local
//! submissions and claims render passes. The surrounding binary shares
//! one `Session` between the two threads behind its lock, held only for
//! the duration of a single transition, never across a blocking call.

use vstd::prelude::*;

use crate::editor::App;
use crate::flags::RedrawFlag;
use crate::flags::TerminationSignal;
use crate::log::MessageLog;
use crate::log::window_of;

verus! {

/// What one read off the connection's read half yielded.
pub enum ReadEvent {
    /// A zero-length read: the peer closed the stream.
    Closed,
    /// One newline-delimited record, line terminator still attached.
    Record(Vec<char>),
    /// A transient read error; the receiver retries.
    Failed,
}

/// Mathematical model of a `ReadEvent`.
pub enum ReadEventView {
    Closed,
    Record(Seq<char>),
    Failed,
}

impl View for ReadEvent {
    type V = ReadEventView;

    open spec fn view(&self) -> ReadEventView {
        match self {
            ReadEvent::Closed => ReadEventView::Closed,
            ReadEvent::Record(raw) => ReadEventView::Record(raw@),
            ReadEvent::Failed => ReadEventView::Failed,
        }
    }
}

/// Mathematical model of the shared session state.
#[verifier::ext_equal]
pub struct SessionView {
    pub log: Seq<Seq<char>>,
    pub terminated: bool,
    pub dirty: bool,
}

/// Shared session context: the message log, the termination signal and
/// the redraw-dirty flag, as one explicit value both threads work on.
pub struct Session {
    pub log: MessageLog,
    pub termination: TerminationSignal,
    pub redraw: RedrawFlag,
}

impl View for Session {
    type V = SessionView;

    open spec fn view(&self) -> SessionView {
        SessionView { log: self.log@, terminated: self.termination@, dirty: self.redraw@ }
    }
}

/// A record with its trailing line terminator removed: one trailing
/// newline is dropped, then one trailing carriage return if the line
/// ended in the two-character terminator.
pub open spec fn trimmed(raw: Seq<char>) -> Seq<char> {
    let without_newline = if raw.len() > 0 && raw.last() == '\n' {
        raw.drop_last()
    } else {
        raw
    };
    if without_newline.len() > 0 && without_newline.last() == '\r' {
        without_newline.drop_last()
    } else {
        without_newline
    }
}

/// What one read event does to the session: a peer close sets the
/// termination signal; a record is trimmed, appended to the log, and
/// marks the dirty flag; a transient failure changes nothing.
pub open spec fn read_step(state: SessionView, event: ReadEventView) -> SessionView {
    match event {
        ReadEventView::Closed => SessionView { terminated: true, ..state },
        ReadEventView::Record(raw) => SessionView {
            log: state.log.push(trimmed(raw)),
            dirty: true,
            ..state
        },
        ReadEventView::Failed => state,
    }
}

/// What a local submission does to the session: the submitted line is
/// appended to the log, whatever later becomes of the network send.
pub open spec fn submit_step(state: SessionView, line: Seq<char>) -> SessionView {
    SessionView { log: state.log.push(line), ..state }
}

/// Removes the trailing line terminator (`"\n"` or `"\r\n"`) of one
/// received record; anything else, interior newlines included, stays.
pub fn trim_line_terminator(raw: &mut Vec<char>)
    ensures
        final(raw)@ == trimmed(old(raw)@),
{
    let len = raw.len();
    if len > 0 && raw[len - 1] == '\n' {
        raw.pop();
    }
    let len = raw.len();
    if len > 0 && raw[len - 1] == '\r' {
        raw.pop();
    }
}

impl Session {
    /// Fresh session: empty log, termination not requested, and the dirty
    /// flag set so the first loop iteration renders the empty screen.
    pub fn new() -> (session: Session)
        ensures
            session@.log == Seq::<Seq<char>>::empty(),
            !session@.terminated,
            session@.dirty,
    {
        Session { log: MessageLog::new(), termination: TerminationSignal::new(), redraw: RedrawFlag::new() }
    }

    /// Applies one read event, exactly as `read_step` says.
    pub fn handle_read_event(&mut self, event: ReadEvent)
        ensures
            final(self)@ == read_step(old(self)@, event@),
    {
        match event {
            ReadEvent::Closed => {
                self.termination.request_stop();
            },
            ReadEvent::Record(mut raw) => {
                trim_line_terminator(&mut raw);
                self.log.append(raw);
                self.redraw.mark();
            },
            ReadEvent::Failed => {},
        }
        proof {
            assert(final(self)@ =~= read_step(old(self)@, event@));
        }
    }

    /// Takes the current input out of the editor and records it in the
    /// log; the returned line is what the caller then writes to the
    /// connection, followed by one newline. The message stays recorded
    /// locally even if that send later fails.
    ///
    /// An empty input submits like any other: the empty message is
    /// appended to the log and an empty line goes out on the wire.
    pub fn submit_local(&mut self, editor: &mut App) -> (line: Vec<char>)
        ensures
            line@ == old(editor)@.input,
            final(self)@ == submit_step(old(self)@, old(editor)@.input),
            final(editor)@.input == Seq::<char>::empty(),
            final(editor)@.cursor == 0,
            final(editor)@.mode == old(editor)@.mode,
            final(editor).wf(),
    {
        let line = editor.take_submission();
        let recorded = crate::editor::copy_chars(&line);
        self.log.append(recorded);
        proof {
            assert(final(self)@ =~= submit_step(old(self)@, old(editor)@.input));
        }
        line
    }

    /// Claims at most one render pass: true exactly when a visible change
    /// was pending, and the flag is clean afterwards.
    pub fn take_redraw(&mut self) -> (render_now: bool)
        ensures
            render_now == old(self)@.dirty,
            !final(self)@.dirty,
            final(self)@.log == old(self)@.log,
            final(self)@.terminated == old(self)@.terminated,
    {
        self.redraw.test_and_clear()
    }

    /// Whether the event loop should leave its loop: this design exits on
    /// a detected peer disconnect as well as on a local quit, rather than
    /// keeping the interface open as a mere status display.
    pub fn should_exit(&self) -> (exit: bool)
        ensures
            exit == self@.terminated,
    {
        self.termination.is_terminated()
    }

    /// The windowed tail of the log for one render pass.
    pub fn windowed_snapshot(&self, max_rows: usize) -> (window: Vec<Vec<char>>)
        ensures
            window.deep_view() == window_of(self@.log, max_rows as int),
    {
        self.log.windowed_snapshot(max_rows)
    }
}

/// The session after the receiver has processed a whole sequence of
/// records, one `read_step` each, in arrival order.
pub open spec fn received_all(state: SessionView, raws: Seq<Seq<char>>) -> SessionView
    decreases raws.len(),
{
    if raws.len() == 0 {
        state
    } else {
        received_all(read_step(state, ReadEventView::Record(raws.first())), raws.drop_first())
    }
}

/// Receiving records only appends: after the receiver processes any
/// sequence of records with no local input, the log holds exactly the
/// records it held before followed by those records, trimmed, in arrival
/// order — starting from an empty log, exactly the trimmed records.
/// Neither the termination signal nor anything else is disturbed.
pub proof fn lemma_receiver_appends_in_order(state: SessionView, raws: Seq<Seq<char>>)
    ensures
        received_all(state, raws).log == state.log + raws.map_values(|raw: Seq<char>| trimmed(raw)),
        received_all(state, raws).terminated == state.terminated,
        raws.len() > 0 ==> received_all(state, raws).dirty,
    decreases raws.len(),
{
    let trims = |raw: Seq<char>| trimmed(raw);
    if raws.len() == 0 {
        assert(state.log + raws.map_values(trims) =~= state.log);
    } else {
        let stepped = read_step(state, ReadEventView::Record(raws.first()));
        lemma_receiver_appends_in_order(stepped, raws.drop_first());
        assert(stepped.log + raws.drop_first().map_values(trims) =~= state.log + raws.map_values(
            trims,
        ));
    }
}

/// One append per event, local or remote.
pub enum AppendEventView {
    /// A record arriving off the connection, terminator still attached.
    Remote(Seq<char>),
    /// A locally submitted line.
    Local(Seq<char>),
}

/// What one append event, of either origin, does to the session.
pub open spec fn append_step(state: SessionView, event: AppendEventView) -> SessionView {
    match event {
        AppendEventView::Remote(raw) => read_step(state, ReadEventView::Record(raw)),
        AppendEventView::Local(line) => submit_step(state, line),
    }
}

/// The session after any interleaving of append events, applied in the
/// order in which they won the log's lock.
pub open spec fn appended_all(state: SessionView, events: Seq<AppendEventView>) -> SessionView
    decreases events.len(),
{
    if events.len() == 0 {
        state
    } else {
        appended_all(append_step(state, events.first()), events.drop_first())
    }
}

/// No append is ever lost or duplicated: whatever the interleaving of
/// local submissions and remote arrivals, the log grows by exactly one
/// entry per event.
pub proof fn lemma_no_append_lost(state: SessionView, events: Seq<AppendEventView>)
    ensures
        appended_all(state, events).log.len() == state.log.len() + events.len(),
    decreases events.len(),
{
    if events.len() > 0 {
        lemma_no_append_lost(append_step(state, events.first()), events.drop_first());
    }
}

/// The session's invariants hold across every transition: the log never
/// shrinks, and the termination signal, once set, never returns to false.
pub proof fn lemma_session_transitions_monotonic(
    state: SessionView,
    event: ReadEventView,
    line: Seq<char>,
)
    ensures
        read_step(state, event).log.len() >= state.log.len(),
        state.terminated ==> read_step(state, event).terminated,
        submit_step(state, line).log.len() >= state.log.len(),
        submit_step(state, line).terminated == state.terminated,
{
}

/// A zero-length read sets the termination signal, and further
/// zero-length reads afterward produce no additional effect: the session
/// after two peer-close events equals the session after one.
pub proof fn lemma_peer_close_idempotent(state: SessionView)
    ensures
        read_step(state, ReadEventView::Closed).terminated,
        read_step(read_step(state, ReadEventView::Closed), ReadEventView::Closed) == read_step(
            state,
            ReadEventView::Closed,
        ),
{
}

} // verus!
