//! The structured-console terminal backend: the console offers no escape
//! sequences, so cursor movement and clearing are rendered as structured
//! commands into a pending buffer, and the backend tracks the cursor
//! position itself. Relative moves toward the origin are clamped so the
//! tracked position never goes negative. The platform glue that performs
//! the commands and the blocking input reads lives outside the library.

use vstd::prelude::*;
use crate::keys::{Event, Key, KeyMod};

verus! {

/// One structured console operation, performed by the platform glue:
/// erase the screen, set the absolute cursor position, or write one
/// character at the cursor.
#[derive(Clone, Copy, PartialEq, Eq, Structural, Debug)]
pub enum ConsoleCmd {
    Clear,
    SetPos(u16, u16),
    Write(char),
}

/// The console backend: a tracked cursor position and the pending
/// commands. The view is the pending command sequence.
pub struct Win32Term {
    x: u16,
    y: u16,
    pending: Vec<ConsoleCmd>,
}

impl View for Win32Term {
    type V = Seq<ConsoleCmd>;

    closed spec fn view(&self) -> Seq<ConsoleCmd> {
        self.pending@
    }
}

impl Win32Term {
    /// The tracked cursor column.
    pub closed spec fn pos_x(self) -> u16 {
        self.x
    }

    /// The tracked cursor row.
    pub closed spec fn pos_y(self) -> u16 {
        self.y
    }

    /// A backend with the cursor tracked at the origin and nothing
    /// pending.
    pub fn new() -> (t: Win32Term)
        ensures
            t.pos_x() == 0,
            t.pos_y() == 0,
            t@ == Seq::<ConsoleCmd>::empty(),
    {
        Win32Term { x: 0, y: 0, pending: Vec::new() }
    }

    /// The tracked cursor position, `(column, row)`.
    pub fn pos(&self) -> (p: (u16, u16))
        ensures
            p.0 == self.pos_x(),
            p.1 == self.pos_y(),
    {
        (self.x, self.y)
    }

    /// Erase the visible screen. The cursor position is untouched.
    pub fn clear(&mut self)
        ensures
            final(self)@ == old(self)@ + seq![ConsoleCmd::Clear],
            final(self).pos_x() == old(self).pos_x(),
            final(self).pos_y() == old(self).pos_y(),
    {
        self.pending.push(ConsoleCmd::Clear);
        proof {
            assert(self@ =~= old(self)@ + seq![ConsoleCmd::Clear]);
        }
    }

    /// Set the absolute cursor position, zero-based.
    pub fn move_cursor(&mut self, x: u16, y: u16)
        ensures
            final(self)@ == old(self)@ + seq![ConsoleCmd::SetPos(x, y)],
            final(self).pos_x() == x,
            final(self).pos_y() == y,
    {
        self.pending.push(ConsoleCmd::SetPos(x, y));
        self.x = x;
        self.y = y;
        proof {
            assert(self@ =~= old(self)@ + seq![ConsoleCmd::SetPos(x, y)]);
        }
    }

    /// Move the cursor `n` cells up, clamped at the top row: the tracked
    /// row never goes below zero.
    pub fn cursor_up(&mut self, n: u16)
        ensures
            final(self).pos_x() == old(self).pos_x(),
            final(self).pos_y() == if old(self).pos_y() >= n {
                (old(self).pos_y() - n) as u16
            } else {
                0u16
            },
            final(self)@ == old(self)@ + seq![
                ConsoleCmd::SetPos(final(self).pos_x(), final(self).pos_y()),
            ],
    {
        let ny: u16 = if self.y >= n {
            self.y - n
        } else {
            0
        };
        let nx: u16 = self.x;
        self.move_cursor(nx, ny);
    }

    /// Move the cursor `n` cells down. The upper bound is the caller's
    /// responsibility; the tracked row must stay in range.
    pub fn cursor_down(&mut self, n: u16)
        requires
            old(self).pos_y() + n <= u16::MAX,
        ensures
            final(self).pos_x() == old(self).pos_x(),
            final(self).pos_y() == old(self).pos_y() + n,
            final(self)@ == old(self)@ + seq![
                ConsoleCmd::SetPos(final(self).pos_x(), final(self).pos_y()),
            ],
    {
        let ny: u16 = self.y + n;
        let nx: u16 = self.x;
        self.move_cursor(nx, ny);
    }

    /// Move the cursor `n` cells forward. The upper bound is the caller's
    /// responsibility; the tracked column must stay in range.
    pub fn cursor_forward(&mut self, n: u16)
        requires
            old(self).pos_x() + n <= u16::MAX,
        ensures
            final(self).pos_x() == old(self).pos_x() + n,
            final(self).pos_y() == old(self).pos_y(),
            final(self)@ == old(self)@ + seq![
                ConsoleCmd::SetPos(final(self).pos_x(), final(self).pos_y()),
            ],
    {
        let nx: u16 = self.x + n;
        let ny: u16 = self.y;
        self.move_cursor(nx, ny);
    }

    /// Move the cursor `n` cells back, clamped at the first column: the
    /// tracked column never goes below zero.
    pub fn cursor_back(&mut self, n: u16)
        ensures
            final(self).pos_y() == old(self).pos_y(),
            final(self).pos_x() == if old(self).pos_x() >= n {
                (old(self).pos_x() - n) as u16
            } else {
                0u16
            },
            final(self)@ == old(self)@ + seq![
                ConsoleCmd::SetPos(final(self).pos_x(), final(self).pos_y()),
            ],
    {
        let nx: u16 = if self.x >= n {
            self.x - n
        } else {
            0
        };
        let ny: u16 = self.y;
        self.move_cursor(nx, ny);
    }

    /// Write one character at the cursor and advance the tracked
    /// position: newline resets the column and advances the row, carriage
    /// return resets the column, any other character advances the column.
    pub fn print(&mut self, ch: char)
        requires
            ch == '\n' ==> old(self).pos_y() < u16::MAX,
            ch != '\n' && ch != '\r' ==> old(self).pos_x() < u16::MAX,
        ensures
            final(self)@ == old(self)@ + seq![ConsoleCmd::Write(ch)],
            ch == '\n' ==> final(self).pos_x() == 0 && final(self).pos_y() == old(self).pos_y()
                + 1,
            ch == '\r' ==> final(self).pos_x() == 0 && final(self).pos_y() == old(self).pos_y(),
            ch != '\n' && ch != '\r' ==> final(self).pos_x() == old(self).pos_x() + 1
                && final(self).pos_y() == old(self).pos_y(),
    {
        self.pending.push(ConsoleCmd::Write(ch));
        if ch == '\n' {
            self.y = self.y + 1;
            self.x = 0;
        } else if ch == '\r' {
            self.x = 0;
        } else {
            self.x = self.x + 1;
        }
        proof {
            assert(self@ =~= old(self)@ + seq![ConsoleCmd::Write(ch)]);
        }
    }

    /// Hand the pending commands to the caller for delivery to the
    /// console, leaving nothing pending.
    pub fn flush(&mut self) -> (out: Vec<ConsoleCmd>)
        ensures
            out@ == old(self)@,
            final(self)@ == Seq::<ConsoleCmd>::empty(),
            final(self).pos_x() == old(self).pos_x(),
            final(self).pos_y() == old(self).pos_y(),
    {
        let mut drained: Vec<ConsoleCmd> = Vec::new();
        core::mem::swap(&mut drained, &mut self.pending);
        drained
    }

    /// A fresh event source over the console's input. It starts empty;
    /// the caller refills it with each batch the platform delivers.
    pub fn wait_events(&self) -> (it: WaitEventIter)
        ensures
            it.record_seq() == Seq::<InputRecord>::empty(),
            it.spec_read() == 0,
    {
        WaitEventIter::new()
    }
}

/// One structured input record as the console delivers it, reduced to the
/// fields the event source reads: whether the record is a key event,
/// whether the key went down, and the character of the key.
#[derive(Clone, Copy, PartialEq, Eq, Structural, Debug)]
pub struct InputRecord {
    pub is_key_event: bool,
    pub key_down: bool,
    pub character: u8,
}

/// Whether a record is reported by the event source: only key-down key
/// events are; every other record is skipped.
pub open spec fn spec_is_reported(r: InputRecord) -> bool {
    r.is_key_event && r.key_down
}

/// The event a reported record decodes to: its character as a Unicode key
/// with no modifiers.
pub open spec fn spec_record_event(r: InputRecord) -> Event {
    Event::Key(Key::Unicode(r.character as char), KeyMod { bits: 0 })
}

/// The position of the first reported record at or after `i`, or the
/// batch length when there is none.
pub open spec fn spec_first_reported(records: Seq<InputRecord>, i: int) -> int
    decreases records.len() - i,
{
    if i < 0 || i >= records.len() {
        records.len() as int
    } else if spec_is_reported(records[i]) {
        i
    } else {
        spec_first_reported(records, i + 1)
    }
}

/// A sequential cursor over one batch of console input records, reporting
/// only key-down key events and skipping the rest. When the batch is
/// exhausted it reports nothing until refilled with the next batch.
pub struct WaitEventIter {
    buf: Vec<InputRecord>,
    read: usize,
}

impl WaitEventIter {
    /// The records of the current batch.
    pub closed spec fn record_seq(self) -> Seq<InputRecord> {
        self.buf@
    }

    /// The position of the next record to examine.
    pub closed spec fn spec_read(self) -> int {
        self.read as int
    }

    /// An event source with no batch yet.
    pub fn new() -> (it: WaitEventIter)
        ensures
            it.record_seq() == Seq::<InputRecord>::empty(),
            it.spec_read() == 0,
    {
        WaitEventIter { buf: Vec::new(), read: 0 }
    }

    /// Replace the batch with the records of one fresh platform read and
    /// restart from its beginning.
    pub fn refill(&mut self, records: Vec<InputRecord>)
        ensures
            final(self).record_seq() == records@,
            final(self).spec_read() == 0,
    {
        self.buf = records;
        self.read = 0;
    }

    /// The next decoded key event of the batch: the first key-down key
    /// record at or after the cursor, or absent when the rest of the
    /// batch holds none. Skipped and reported records are consumed.
    pub fn next(&mut self) -> (r: Option<Event>)
        requires
            old(self).spec_read() <= old(self).record_seq().len(),
        ensures
            final(self).record_seq() == old(self).record_seq(),
            ({
                let first = spec_first_reported(old(self).record_seq(), old(self).spec_read());
                if first < old(self).record_seq().len() {
                    r == Some(spec_record_event(old(self).record_seq()[first]))
                        && final(self).spec_read() == first + 1
                } else {
                    r is None && final(self).spec_read() == old(self).record_seq().len()
                }
            }),
    {
        while self.read < self.buf.len()
            invariant
                self.buf@ == old(self).record_seq(),
                old(self).spec_read() <= self.read as int <= self.buf@.len(),
                spec_first_reported(self.buf@, old(self).spec_read()) == spec_first_reported(
                    self.buf@,
                    self.read as int,
                ),
            decreases self.buf@.len() - self.read,
        {
            let record = self.buf[self.read];
            self.read = self.read + 1;
            if record.is_key_event && record.key_down {
                return Some(Event::Key(Key::Unicode(record.character as char), KeyMod::none()));
            }
        }
        None
    }
}

} // verus!
