//! The render pass: walk a screen buffer in row-major order and drive the
//! escape-sequence backend, emitting an absolute cursor move followed by
//! the cell's text for every cell holding a grapheme, and nothing at all
//! for empty cells.

use vstd::prelude::*;
use crate::ansi::{spec_clear_seq, spec_move_seq, AsciiTerm};
use crate::screen::{CellIter, Screen};

verus! {

/// What one cell contributes to the render output: a cursor move to the
/// cell's `(row, col)` position followed by its grapheme's characters, or
/// nothing when the cell is empty.
pub open spec fn spec_cell_output(s: Screen, i: int) -> Seq<char> {
    let (x, y) = CellIter::coord_of(s, i);
    match s.cell_seq()[i].grapheme {
        Some(g) => spec_move_seq(y, x) + g@,
        None => Seq::<char>::empty(),
    }
}

/// The render output of the first `n` cells, in row-major order.
pub open spec fn spec_render_upto(s: Screen, n: int) -> Seq<char>
    decreases n,
{
    if n <= 0 {
        Seq::<char>::empty()
    } else {
        spec_render_upto(s, n - 1) + spec_cell_output(s, n - 1)
    }
}

/// The whole render pass: clear the screen, then the output of every cell
/// in row-major order.
pub open spec fn spec_render(s: Screen) -> Seq<char> {
    spec_clear_seq() + spec_render_upto(s, s.cell_seq().len() as int)
}

/// Render a screen buffer through the escape-sequence backend: clear, then
/// for each cell holding a grapheme an absolute move plus its text; empty
/// cells emit nothing.
pub fn screen_to_term(screen: &Screen, term: &mut AsciiTerm)
    requires
        screen.wf(),
    ensures
        final(term)@ == old(term)@ + spec_render(*screen),
{
    term.clear();
    let mut it = screen.cells();
    loop
        invariant
            screen.wf(),
            it.screen_of() == *screen,
            0 <= it.spec_index() <= screen.cell_seq().len(),
            term@ == old(term)@ + spec_clear_seq() + spec_render_upto(*screen, it.spec_index()),
        ensures
            term@ == old(term)@ + spec_clear_seq() + spec_render_upto(
                *screen,
                screen.cell_seq().len() as int,
            ),
        decreases screen.cell_seq().len() - it.spec_index(),
    {
        let ghost i = it.spec_index();
        match it.next() {
            Some((x, y, cell)) => {
                match &cell.grapheme {
                    Some(g) => {
                        term.move_cursor(y, x);
                        term.print_str(g.character());
                    },
                    None => {},
                }
                proof {
                    assert(term@ =~= old(term)@ + spec_clear_seq() + spec_render_upto(
                        *screen,
                        i + 1,
                    ));
                }
            },
            None => {
                break ;
            },
        }
    }
    proof {
        assert(term@ =~= old(term)@ + spec_render(*screen));
    }
}

} // verus!
