use termcore::ansi::AsciiTerm;
use termcore::render::screen_to_term;
use termcore::screen::{Grapheme, Screen};

fn chars_of(s: &str) -> Vec<char> {
    s.chars().collect()
}

#[test]
fn render_hello_emits_five_moves_and_skips_the_rest() {
    let mut screen = Screen::new(80, 25);
    let text = ["H", "e", "l", "l", "o"];
    for (i, ch) in text.iter().enumerate() {
        screen.cell_at_mut(i as u16, 0).unwrap().grapheme = Some(Grapheme::new(ch));
    }

    // exactly five cells are non-empty
    let mut non_empty = 0;
    let mut it = screen.cells();
    while let Some((_, _, cell)) = it.next() {
        if cell.grapheme.is_some() {
            non_empty += 1;
        }
    }
    assert_eq!(non_empty, 5);

    let mut term = AsciiTerm::new();
    screen_to_term(&screen, &mut term);
    let out = term.flush();

    // one clear, then one absolute-move-plus-print per non-empty cell at
    // (0,0) through (4,0), and nothing for the other 1995 cells
    let mut expected = String::from("\x1b[2J");
    for (i, ch) in text.iter().enumerate() {
        expected.push_str(&format!("\x1b[1;{}H{}", i + 1, ch));
    }
    assert_eq!(out, chars_of(&expected));
}

#[test]
fn render_empty_screen_only_clears() {
    let screen = Screen::new(10, 10);
    let mut term = AsciiTerm::new();
    screen_to_term(&screen, &mut term);
    assert_eq!(term.flush(), chars_of("\x1b[2J"));
}

#[test]
fn render_appends_after_pending_output() {
    let mut screen = Screen::new(2, 2);
    screen.cell_at_mut(1, 1).unwrap().grapheme = Some(Grapheme::new("Z"));
    let mut term = AsciiTerm::new();
    term.print('p');
    screen_to_term(&screen, &mut term);
    assert_eq!(term.flush(), chars_of("p\x1b[2J\x1b[2;2HZ"));
}
