use termcore::console::{ConsoleCmd, InputRecord, Win32Term};
use termcore::keys::{Event, Key, KeyMod};

#[test]
fn relative_moves_clamp_at_origin() {
    let mut t = Win32Term::new();
    assert_eq!(t.pos(), (0, 0));
    t.cursor_up(5);
    t.cursor_back(5);
    assert_eq!(t.pos(), (0, 0));
}

#[test]
fn cursor_up_clamps_row_to_zero() {
    let mut t = Win32Term::new();
    t.move_cursor(3, 3);
    t.cursor_up(5);
    assert_eq!(t.pos(), (3, 0));
}

#[test]
fn cursor_back_clamps_column_to_zero() {
    let mut t = Win32Term::new();
    t.move_cursor(3, 3);
    t.cursor_back(5);
    assert_eq!(t.pos(), (0, 3));
}

#[test]
fn downward_and_forward_moves_are_unclamped() {
    let mut t = Win32Term::new();
    t.cursor_down(7);
    t.cursor_forward(2);
    assert_eq!(t.pos(), (2, 7));
}

#[test]
fn moves_emit_set_position_commands() {
    let mut t = Win32Term::new();
    t.clear();
    t.move_cursor(4, 5);
    t.cursor_up(1);
    assert_eq!(
        t.flush(),
        vec![ConsoleCmd::Clear, ConsoleCmd::SetPos(4, 5), ConsoleCmd::SetPos(4, 4)]
    );
    assert_eq!(t.flush(), Vec::<ConsoleCmd>::new());
}

#[test]
fn print_advances_tracked_position() {
    let mut t = Win32Term::new();
    t.print('a');
    assert_eq!(t.pos(), (1, 0));
    t.print('b');
    assert_eq!(t.pos(), (2, 0));
    t.print('\n');
    assert_eq!(t.pos(), (0, 1));
    t.print('c');
    t.print('\r');
    assert_eq!(t.pos(), (0, 1));
    assert_eq!(
        t.flush(),
        vec![
            ConsoleCmd::Write('a'),
            ConsoleCmd::Write('b'),
            ConsoleCmd::Write('\n'),
            ConsoleCmd::Write('c'),
            ConsoleCmd::Write('\r'),
        ]
    );
}

fn key_down(ch: u8) -> InputRecord {
    InputRecord { is_key_event: true, key_down: true, character: ch }
}

#[test]
fn event_source_reports_only_key_down_records() {
    let mut t = Win32Term::new();
    let mut it = t.wait_events();
    // no batch yet
    assert!(it.next().is_none());
    it.refill(vec![
        InputRecord { is_key_event: false, key_down: false, character: 0 },
        InputRecord { is_key_event: true, key_down: false, character: b'x' },
        key_down(b'q'),
        InputRecord { is_key_event: false, key_down: true, character: b'y' },
        key_down(b'w'),
    ]);
    assert_eq!(it.next(), Some(Event::Key(Key::Unicode('q'), KeyMod { bits: 0 })));
    assert_eq!(it.next(), Some(Event::Key(Key::Unicode('w'), KeyMod { bits: 0 })));
    assert!(it.next().is_none());
    // refilling restarts the cursor
    it.refill(vec![key_down(b'a')]);
    assert_eq!(it.next(), Some(Event::Key(Key::Unicode('a'), KeyMod { bits: 0 })));
    assert!(it.next().is_none());
    let _ = t.flush();
}

#[test]
fn batch_of_skipped_records_reports_nothing() {
    let t = Win32Term::new();
    let mut it = t.wait_events();
    it.refill(vec![
        InputRecord { is_key_event: true, key_down: false, character: b'x' },
        InputRecord { is_key_event: false, key_down: false, character: 0 },
    ]);
    assert!(it.next().is_none());
}
