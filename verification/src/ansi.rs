//! The escape-sequence terminal backend: cursor movement, clearing and
//! printing are rendered as the standard terminal control sequences into a
//! pending output buffer. Flushing hands the buffered characters to the
//! caller, who writes them to the output stream; the terminal device
//! itself tracks the cursor, so this backend keeps no position state.

use vstd::prelude::*;

verus! {

/// The decimal digit character for one digit value.
pub open spec fn spec_digit(d: int) -> char {
    if d == 0 {
        '0'
    } else if d == 1 {
        '1'
    } else if d == 2 {
        '2'
    } else if d == 3 {
        '3'
    } else if d == 4 {
        '4'
    } else if d == 5 {
        '5'
    } else if d == 6 {
        '6'
    } else if d == 7 {
        '7'
    } else if d == 8 {
        '8'
    } else {
        '9'
    }
}

/// The decimal rendering of a nonnegative number, most significant digit
/// first, without leading zeros (zero itself renders as one digit).
pub open spec fn spec_decimal(n: int) -> Seq<char>
    decreases n,
{
    if n < 10 {
        seq![spec_digit(n)]
    } else {
        spec_decimal(n / 10).push(spec_digit(n % 10))
    }
}

/// The clear-screen control sequence.
pub open spec fn spec_clear_seq() -> Seq<char> {
    seq!['\x1b', '[', '2', 'J']
}

/// The absolute cursor-move control sequence for zero-based `(row, col)`:
/// one-based on the wire.
pub open spec fn spec_move_seq(row: u16, col: u16) -> Seq<char> {
    seq!['\x1b', '['] + spec_decimal(row + 1) + seq![';'] + spec_decimal(col + 1) + seq!['H']
}

/// The relative cursor-move control sequence: `n` cells in the direction
/// named by the final letter (`A` up, `B` down, `C` forward, `D` back).
pub open spec fn spec_rel_seq(n: u16, dir: char) -> Seq<char> {
    seq!['\x1b', '['] + spec_decimal(n as int) + seq![dir]
}

/// Append the decimal rendering of `n` to `out`.
fn push_decimal(out: &mut Vec<char>, n: u32)
    ensures
        final(out)@ == old(out)@ + spec_decimal(n as int),
    decreases n,
{
    if n >= 10 {
        push_decimal(out, n / 10);
    }
    let d: u32 = n % 10;
    let c: char = if d == 0 {
        '0'
    } else if d == 1 {
        '1'
    } else if d == 2 {
        '2'
    } else if d == 3 {
        '3'
    } else if d == 4 {
        '4'
    } else if d == 5 {
        '5'
    } else if d == 6 {
        '6'
    } else if d == 7 {
        '7'
    } else if d == 8 {
        '8'
    } else {
        '9'
    };
    out.push(c);
    proof {
        assert(out@ =~= old(out)@ + spec_decimal(n as int));
    }
}

/// Append every character of `s` to `out`.
fn push_chars(out: &mut Vec<char>, s: &str)
    ensures
        final(out)@ == old(out)@ + s@,
{
    let ghost start = out@;
    for c in it: s.chars()
        invariant
            out@ == start + it.seq().take(it.index() as int),
    {
        proof {
            assert(it.seq().take(it.index() + 1) =~= it.seq().take(it.index() as int).push(
                it.seq()[it.index() as int],
            ));
        }
        out.push(c);
    }
    proof {
        assert(out@ =~= start + s@);
    }
}

/// The escape-sequence backend. Every operation appends its control
/// sequence or text to the pending buffer; the view is the pending
/// buffer's characters.
pub struct AsciiTerm {
    out: Vec<char>,
}

impl View for AsciiTerm {
    type V = Seq<char>;

    closed spec fn view(&self) -> Seq<char> {
        self.out@
    }
}

impl AsciiTerm {
    /// A backend with nothing pending.
    pub fn new() -> (t: AsciiTerm)
        ensures
            t@ == Seq::<char>::empty(),
    {
        AsciiTerm { out: Vec::new() }
    }

    /// Erase the visible screen.
    pub fn clear(&mut self)
        ensures
            final(self)@ == old(self)@ + spec_clear_seq(),
    {
        self.out.push('\x1b');
        self.out.push('[');
        self.out.push('2');
        self.out.push('J');
        proof {
            assert(self@ =~= old(self)@ + spec_clear_seq());
        }
    }

    /// Set the absolute cursor position, zero-based; the emitted sequence
    /// is one-based as the wire protocol requires.
    pub fn move_cursor(&mut self, row: u16, col: u16)
        ensures
            final(self)@ == old(self)@ + spec_move_seq(row, col),
    {
        self.out.push('\x1b');
        self.out.push('[');
        push_decimal(&mut self.out, row as u32 + 1);
        self.out.push(';');
        push_decimal(&mut self.out, col as u32 + 1);
        self.out.push('H');
        proof {
            assert(self@ =~= old(self)@ + spec_move_seq(row, col));
        }
    }

    /// Move the cursor `n` cells up.
    pub fn cursor_up(&mut self, n: u16)
        ensures
            final(self)@ == old(self)@ + spec_rel_seq(n, 'A'),
    {
        self.relative_move(n, 'A');
    }

    /// Move the cursor `n` cells down.
    pub fn cursor_down(&mut self, n: u16)
        ensures
            final(self)@ == old(self)@ + spec_rel_seq(n, 'B'),
    {
        self.relative_move(n, 'B');
    }

    /// Move the cursor `n` cells forward.
    pub fn cursor_forward(&mut self, n: u16)
        ensures
            final(self)@ == old(self)@ + spec_rel_seq(n, 'C'),
    {
        self.relative_move(n, 'C');
    }

    /// Move the cursor `n` cells back.
    pub fn cursor_back(&mut self, n: u16)
        ensures
            final(self)@ == old(self)@ + spec_rel_seq(n, 'D'),
    {
        self.relative_move(n, 'D');
    }

    fn relative_move(&mut self, n: u16, dir: char)
        ensures
            final(self)@ == old(self)@ + spec_rel_seq(n, dir),
    {
        self.out.push('\x1b');
        self.out.push('[');
        push_decimal(&mut self.out, n as u32);
        self.out.push(dir);
        proof {
            assert(self@ =~= old(self)@ + spec_rel_seq(n, dir));
        }
    }

    /// Write one character at the current cursor position.
    pub fn print(&mut self, ch: char)
        ensures
            final(self)@ == old(self)@ + seq![ch],
    {
        self.out.push(ch);
        proof {
            assert(self@ =~= old(self)@ + seq![ch]);
        }
    }

    /// Write every character of `s` at the current cursor position.
    pub fn print_str(&mut self, s: &str)
        ensures
            final(self)@ == old(self)@ + s@,
    {
        push_chars(&mut self.out, s);
    }

    /// Hand the pending output to the caller for delivery to the terminal,
    /// leaving nothing pending.
    pub fn flush(&mut self) -> (out: Vec<char>)
        ensures
            out@ == old(self)@,
            final(self)@ == Seq::<char>::empty(),
    {
        let mut drained: Vec<char> = Vec::new();
        core::mem::swap(&mut drained, &mut self.out);
        drained
    }
}

} // verus!
