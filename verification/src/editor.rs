//! Local editor state: the input buffer, the cursor, and the
//! Normal/Editing interaction mode.
//!
//! The buffer is a sequence of whole characters (Unicode scalar values)
//! and the cursor is a character offset, always within `[0, input.len()]`,
//! so an edit can never split a multi-byte character.

use vstd::prelude::*;

verus! {

/// Interaction mode of the editor: keys either navigate (`Normal`)
/// or edit the input buffer (`Editing`).
#[derive(Clone, Copy, Debug, PartialEq, Eq, Structural)]
pub enum InputMode {
    Normal,
    Editing,
}

/// Mathematical model of the editor state.
pub struct AppView {
    pub input: Seq<char>,
    pub cursor: nat,
    pub mode: InputMode,
}

/// Editor state: current input line, cursor position (in characters),
/// and interaction mode. Mutated only by the event-loop thread.
pub struct App {
    /// Current value of the input box, as whole characters.
    pub input: Vec<char>,
    /// Position of the cursor in the editor area, as a character offset.
    pub cursor_position: usize,
    /// Current input mode.
    pub input_mode: InputMode,
}

impl View for App {
    type V = AppView;

    open spec fn view(&self) -> AppView {
        AppView { input: self.input@, cursor: self.cursor_position as nat, mode: self.input_mode }
    }
}

impl App {
    /// The cursor stays within the input buffer.
    pub open spec fn wf(self) -> bool {
        self@.cursor <= self@.input.len()
    }

    /// Fresh editor: empty input, cursor at the start, `Normal` mode.
    pub fn new() -> (app: App)
        ensures
            app.wf(),
            app@.input == Seq::<char>::empty(),
            app@.cursor == 0,
            app@.mode is Normal,
    {
        App { input: Vec::new(), cursor_position: 0, input_mode: InputMode::Normal }
    }

    /// Clamps a candidate cursor position into `[0, input.len()]`.
    pub fn clamp_cursor(&self, new_cursor_pos: usize) -> (clamped: usize)
        ensures
            clamped == if new_cursor_pos <= self@.input.len() {
                new_cursor_pos as int
            } else {
                self@.input.len() as int
            },
    {
        if new_cursor_pos <= self.input.len() {
            new_cursor_pos
        } else {
            self.input.len()
        }
    }

    /// Moves the cursor one character left, stopping at the start.
    pub fn move_cursor_left(&mut self)
        requires
            old(self).wf(),
        ensures
            final(self).wf(),
            final(self)@.input == old(self)@.input,
            final(self)@.mode == old(self)@.mode,
            final(self)@.cursor == if old(self)@.cursor > 0 {
                old(self)@.cursor - 1
            } else {
                0int
            },
    {
        let cursor_moved_left = if self.cursor_position > 0 {
            self.cursor_position - 1
        } else {
            0
        };
        self.cursor_position = self.clamp_cursor(cursor_moved_left);
    }

    /// Moves the cursor one character right, stopping at the end of the input.
    pub fn move_cursor_right(&mut self)
        requires
            old(self).wf(),
        ensures
            final(self).wf(),
            final(self)@.input == old(self)@.input,
            final(self)@.mode == old(self)@.mode,
            final(self)@.cursor == if old(self)@.cursor < old(self)@.input.len() {
                old(self)@.cursor + 1
            } else {
                old(self)@.input.len()
            },
    {
        if self.cursor_position < self.input.len() {
            let cursor_moved_right = self.cursor_position + 1;
            self.cursor_position = self.clamp_cursor(cursor_moved_right);
        }
    }

    /// Inserts a character at the cursor; the cursor advances past it.
    pub fn enter_char(&mut self, new_char: char)
        requires
            old(self).wf(),
        ensures
            final(self).wf(),
            final(self)@.input == old(self)@.input.insert(old(self)@.cursor as int, new_char),
            final(self)@.cursor == old(self)@.cursor + 1,
            final(self)@.mode == old(self)@.mode,
    {
        self.input.insert(self.cursor_position, new_char);
        self.move_cursor_right();
    }

    /// Deletes the character immediately before the cursor; a no-op when
    /// the cursor is at position 0.
    pub fn delete_char(&mut self)
        requires
            old(self).wf(),
        ensures
            final(self).wf(),
            final(self)@.mode == old(self)@.mode,
            old(self)@.cursor == 0 ==> final(self)@ == old(self)@,
            old(self)@.cursor > 0 ==> final(self)@.input == old(self)@.input.remove(
                old(self)@.cursor - 1,
            ) && final(self)@.cursor == old(self)@.cursor - 1,
    {
        let is_not_cursor_leftmost = self.cursor_position != 0;
        if is_not_cursor_leftmost {
            let from_left_to_current_index = self.cursor_position - 1;
            self.input.remove(from_left_to_current_index);
            self.cursor_position = from_left_to_current_index;
        }
    }

    /// Puts the cursor back at the start of the input.
    pub fn reset_cursor(&mut self)
        ensures
            final(self)@.input == old(self)@.input,
            final(self)@.mode == old(self)@.mode,
            final(self)@.cursor == 0,
    {
        self.cursor_position = 0;
    }

    /// Takes the submitted line out of the editor: returns the current
    /// input and resets the buffer to empty with the cursor at 0.
    /// The mode is unchanged, so consecutive submissions stay in `Editing`.
    pub fn take_submission(&mut self) -> (line: Vec<char>)
        ensures
            line@ == old(self)@.input,
            final(self)@.input == Seq::<char>::empty(),
            final(self)@.cursor == 0,
            final(self)@.mode == old(self)@.mode,
            final(self).wf(),
    {
        let line = copy_chars(&self.input);
        self.input.clear();
        self.reset_cursor();
        line
    }
}

impl Default for App {
    /// Fresh editor: empty input, cursor at the start, `Normal` mode.
    fn default() -> (app: App)
        ensures
            app.wf(),
            app@.input == Seq::<char>::empty(),
            app@.cursor == 0,
            app@.mode is Normal,
    {
        App::new()
    }
}

/// Copies a line of characters element by element.
pub fn copy_chars(source: &Vec<char>) -> (copy: Vec<char>)
    ensures
        copy@ == source@,
{
    let mut copy: Vec<char> = Vec::new();
    let mut i: usize = 0;
    while i < source.len()
        invariant
            i <= source@.len(),
            copy@ == source@.take(i as int),
        decreases source@.len() - i,
    {
        copy.push(source[i]);
        proof {
            assert(copy@ =~= source@.take(i + 1));
        }
        i = i + 1;
    }
    proof {
        assert(source@.take(source@.len() as int) =~= source@);
    }
    copy
}

} // verus!
