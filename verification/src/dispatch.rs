//! Key dispatch: what the event loop does with one received key event.
//!
//! The loop itself — polling the terminal with a bounded timeout,
//! rendering, writing submitted lines to the connection — lives in the
//! surrounding binary; every decision it takes on a key is made here,
//! one exact transition per event.

use vstd::prelude::*;

use crate::editor::App;
use crate::editor::AppView;
use crate::editor::InputMode;
use crate::session::Session;
use crate::session::SessionView;
use crate::session::submit_step;

verus! {

/// One key event, as the event loop sees it.
#[derive(Clone, Copy, Debug, PartialEq, Eq, Structural)]
pub enum KeyInput {
    /// A printable character (also carries the Normal-mode command keys).
    Char(char),
    Enter,
    Backspace,
    Left,
    Right,
    Esc,
    /// Any key this tool assigns no meaning to.
    Other,
}

/// What the event loop must do after dispatching one key.
pub enum LoopAction {
    /// Keep looping.
    Continue,
    /// Leave the loop: the user quit.
    Quit,
    /// Write this line to the connection's write half, followed by one
    /// newline; the line is already recorded in the log, and stays there
    /// even if the send fails.
    Send(Vec<char>),
}

/// Mathematical model of a `LoopAction`.
pub enum LoopActionView {
    Continue,
    Quit,
    Send(Seq<char>),
}

impl View for LoopAction {
    type V = LoopActionView;

    open spec fn view(&self) -> LoopActionView {
        match self {
            LoopAction::Continue => LoopActionView::Continue,
            LoopAction::Quit => LoopActionView::Quit,
            LoopAction::Send(line) => LoopActionView::Send(line@),
        }
    }
}

/// The editor after a character insertion at the cursor.
pub open spec fn inserted(editor: AppView, c: char) -> AppView {
    AppView {
        input: editor.input.insert(editor.cursor as int, c),
        cursor: editor.cursor + 1,
        ..editor
    }
}

/// The editor after deleting the character before the cursor; unchanged
/// when the cursor is at 0.
pub open spec fn deleted(editor: AppView) -> AppView {
    if editor.cursor == 0 {
        editor
    } else {
        AppView {
            input: editor.input.remove(editor.cursor - 1),
            cursor: (editor.cursor - 1) as nat,
            ..editor
        }
    }
}

/// The editor after a cursor move, clamped to `[0, input.len()]`.
pub open spec fn cursor_moved_left(editor: AppView) -> AppView {
    AppView { cursor: if editor.cursor > 0 { (editor.cursor - 1) as nat } else { 0 }, ..editor }
}

/// The editor after a cursor move, clamped to `[0, input.len()]`.
pub open spec fn cursor_moved_right(editor: AppView) -> AppView {
    AppView {
        cursor: if editor.cursor < editor.input.len() {
            editor.cursor + 1
        } else {
            editor.input.len()
        },
        ..editor
    }
}

/// What one key event does to the editor and the session, and what the
/// loop must do next.
///
/// Every key first marks the redraw flag: any key event may change
/// visible state. In `Normal` mode, `i` enters `Editing` and `q` quits;
/// quitting also sets the termination signal, so the receiver task winds
/// down cooperatively. In `Editing` mode only key presses act (releases
/// and repeats dispatch nothing): `Enter` submits the input — the line
/// is appended to the log and handed out for sending, the buffer resets
/// — a character is inserted at the cursor, `Backspace` deletes before
/// the cursor, the arrows move it, and `Esc` returns to `Normal`.
pub open spec fn key_step(editor: AppView, state: SessionView, key: KeyInput, is_press: bool) -> (
    AppView,
    SessionView,
    LoopActionView,
) {
    let awake = SessionView { dirty: true, ..state };
    match editor.mode {
        InputMode::Normal => {
            if key == KeyInput::Char('i') {
                (AppView { mode: InputMode::Editing, ..editor }, awake, LoopActionView::Continue)
            } else if key == KeyInput::Char('q') {
                (editor, SessionView { terminated: true, ..awake }, LoopActionView::Quit)
            } else {
                (editor, awake, LoopActionView::Continue)
            }
        },
        InputMode::Editing => {
            if !is_press {
                (editor, awake, LoopActionView::Continue)
            } else {
                match key {
                    KeyInput::Enter => (
                        AppView { input: Seq::empty(), cursor: 0, ..editor },
                        submit_step(awake, editor.input),
                        LoopActionView::Send(editor.input),
                    ),
                    KeyInput::Char(c) => (inserted(editor, c), awake, LoopActionView::Continue),
                    KeyInput::Backspace => (deleted(editor), awake, LoopActionView::Continue),
                    KeyInput::Left => (cursor_moved_left(editor), awake, LoopActionView::Continue),
                    KeyInput::Right => (
                        cursor_moved_right(editor),
                        awake,
                        LoopActionView::Continue,
                    ),
                    KeyInput::Esc => (
                        AppView { mode: InputMode::Normal, ..editor },
                        awake,
                        LoopActionView::Continue,
                    ),
                    _ => (editor, awake, LoopActionView::Continue),
                }
            }
        },
    }
}

/// Key dispatch keeps the session's invariants too: the log never
/// shrinks, and the termination signal, once set, never returns to false.
pub proof fn lemma_key_step_monotonic(
    editor: AppView,
    state: SessionView,
    key: KeyInput,
    is_press: bool,
)
    ensures
        key_step(editor, state, key, is_press).1.log.len() >= state.log.len(),
        state.terminated ==> key_step(editor, state, key, is_press).1.terminated,
{
}

/// Dispatches one key event through the editor state machine, exactly as
/// `key_step` says.
pub fn handle_key(
    editor: &mut App,
    session: &mut Session,
    key: KeyInput,
    is_press: bool,
) -> (action: LoopAction)
    requires
        old(editor).wf(),
    ensures
        final(editor).wf(),
        (final(editor)@, final(session)@, action@) == key_step(
            old(editor)@,
            old(session)@,
            key,
            is_press,
        ),
{
    session.redraw.mark();
    match editor.input_mode {
        InputMode::Normal => {
            match key {
                KeyInput::Char(c) => {
                    if c == 'i' {
                        editor.input_mode = InputMode::Editing;
                    } else if c == 'q' {
                        session.termination.request_stop();
                        return LoopAction::Quit;
                    }
                },
                _ => {},
            }
            LoopAction::Continue
        },
        InputMode::Editing => {
            if !is_press {
                return LoopAction::Continue;
            }
            match key {
                KeyInput::Enter => {
                    let line = session.submit_local(editor);
                    LoopAction::Send(line)
                },
                KeyInput::Char(c) => {
                    editor.enter_char(c);
                    LoopAction::Continue
                },
                KeyInput::Backspace => {
                    editor.delete_char();
                    LoopAction::Continue
                },
                KeyInput::Left => {
                    editor.move_cursor_left();
                    LoopAction::Continue
                },
                KeyInput::Right => {
                    editor.move_cursor_right();
                    LoopAction::Continue
                },
                KeyInput::Esc => {
                    editor.input_mode = InputMode::Normal;
                    LoopAction::Continue
                },
                KeyInput::Other => LoopAction::Continue,
            }
        },
    }
}

} // verus!
