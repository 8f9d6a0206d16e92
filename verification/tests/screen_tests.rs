use termcore::screen::{Attr, Cell, Grapheme, Screen};

#[test]
fn new_cell_is_empty() {
    let c = Cell::new();
    assert!(matches!(c.attr, Attr::Plain));
    assert!(c.grapheme.is_none());
}

#[test]
fn grapheme_round_trip() {
    let g = Grapheme::new("H");
    assert_eq!(g.character(), "H");
    let g2 = Grapheme::new("ab");
    assert_eq!(g2.character(), "ab");
}

#[test]
fn new_screen_dimensions_and_empty_cells() {
    let s = Screen::new(4, 3);
    assert_eq!(s.width(), 4);
    assert_eq!(s.height(), 3);
    let mut it = s.cells();
    let mut count = 0;
    while let Some((_, _, cell)) = it.next() {
        assert!(cell.grapheme.is_none());
        count += 1;
    }
    assert_eq!(count, 12);
}

#[test]
fn cell_write_then_read() {
    let mut s = Screen::new(4, 3);
    s.cell_at_mut(2, 1).unwrap().grapheme = Some(Grapheme::new("X"));
    let cell = s.cell_at(2, 1).unwrap();
    assert_eq!(cell.grapheme.as_ref().unwrap().character(), "X");
    // a different coordinate is untouched
    assert!(s.cell_at(1, 2).unwrap().grapheme.is_none());
}

#[test]
fn out_of_bounds_accessors_are_absent() {
    let mut s = Screen::new(4, 3);
    // exactly-width / exactly-height boundaries
    assert!(s.cell_at(4, 0).is_none());
    assert!(s.cell_at(0, 3).is_none());
    assert!(s.cell_at(4, 3).is_none());
    assert!(s.cell_at_mut(4, 0).is_none());
    assert!(s.cell_at_mut(0, 3).is_none());
    assert!(s.cell_at_mut(4, 3).is_none());
    // far out of range
    assert!(s.cell_at(u16::MAX, 0).is_none());
    assert!(s.cell_at(0, u16::MAX).is_none());
    assert!(s.cell_at_mut(u16::MAX, u16::MAX).is_none());
    // the last in-bounds coordinate is present
    assert!(s.cell_at(3, 2).is_some());
}

#[test]
fn iterate_cells_row_major() {
    let s = Screen::new(3, 2);
    let mut coords = Vec::new();
    let mut it = s.cells();
    while let Some((x, y, _)) = it.next() {
        coords.push((x, y));
    }
    assert_eq!(coords, vec![(0, 0), (1, 0), (2, 0), (0, 1), (1, 1), (2, 1)]);
    // each coordinate appears exactly once
    for a in 0..coords.len() {
        for b in (a + 1)..coords.len() {
            assert_ne!(coords[a], coords[b]);
        }
    }
    // the traversal is restartable: a second pass yields the same triples
    let mut it2 = s.cells();
    let mut count = 0;
    while let Some((x, y, _)) = it2.next() {
        assert_eq!((x, y), coords[count]);
        count += 1;
    }
    assert_eq!(count, 6);
}

#[test]
fn empty_screen_iterates_nothing() {
    let s = Screen::new(0, 5);
    let mut it = s.cells();
    assert!(it.next().is_none());
    let s2 = Screen::new(5, 0);
    let mut it2 = s2.cells();
    assert!(it2.next().is_none());
}
