//! The shared message log: an append-only ordered sequence of text lines,
//! written by the receiver task and by local submissions, and read by the
//! renderer through point-in-time windowed copies of its tail.
//!
//! The log itself is a sequential structure; the surrounding binary shares
//! it between the two threads behind a lock held only for the duration of
//! a push or a copy, never across a blocking call.

use vstd::prelude::*;

use crate::editor::copy_chars;

verus! {

/// Append-only ordered sequence of messages, each a line of characters.
/// Entries are never removed; windowing affects display only.
pub struct MessageLog {
    entries: Vec<Vec<char>>,
}

impl View for MessageLog {
    type V = Seq<Seq<char>>;

    closed spec fn view(&self) -> Seq<Seq<char>> {
        self.entries.deep_view()
    }
}

/// The last `rows` entries of `log` (all of them when the log is shorter),
/// in log order.
pub open spec fn window_of(log: Seq<Seq<char>>, rows: int) -> Seq<Seq<char>> {
    if rows >= log.len() {
        log
    } else {
        log.skip(log.len() - rows)
    }
}

impl MessageLog {
    /// Empty log.
    pub fn new() -> (log: MessageLog)
        ensures
            log@ == Seq::<Seq<char>>::empty(),
    {
        let log = MessageLog { entries: Vec::new() };
        proof {
            assert(log@ =~= Seq::<Seq<char>>::empty());
        }
        log
    }

    /// Number of recorded messages. Appends only ever increase it.
    pub fn len(&self) -> (n: usize)
        ensures
            n == self@.len(),
    {
        self.entries.len()
    }

    /// Records one message at the end of the log.
    pub fn append(&mut self, line: Vec<char>)
        ensures
            final(self)@ == old(self)@.push(line@),
    {
        self.entries.push(line);
        proof {
            assert(final(self)@ =~~= old(self)@.push(line@));
        }
    }

    /// Copies the last `max_rows` messages (or all of them if the log is
    /// shorter), in log order, for one render pass.
    pub fn windowed_snapshot(&self, max_rows: usize) -> (window: Vec<Vec<char>>)
        ensures
            window.deep_view() == window_of(self@, max_rows as int),
    {
        let len = self.entries.len();
        let start = if max_rows <= len {
            len - max_rows
        } else {
            0
        };
        let mut window: Vec<Vec<char>> = Vec::new();
        let mut i: usize = start;
        while i < len
            invariant
                start <= i <= len,
                len == self@.len(),
                self@ == self.entries.deep_view(),
                window.deep_view() == self@.subrange(start as int, i as int),
            decreases len - i,
        {
            let row = copy_chars(&self.entries[i]);
            window.push(row);
            proof {
                assert(row.deep_view() =~= self@[i as int]);
                assert(self@.subrange(start as int, i + 1) =~= self@.subrange(
                    start as int,
                    i as int,
                ).push(self@[i as int]));
                assert(window.deep_view() =~~= self@.subrange(start as int, i + 1));
            }
            i = i + 1;
        }
        proof {
            assert(window.deep_view() =~~= window_of(self@, max_rows as int));
        }
        window
    }
}

} // verus!
