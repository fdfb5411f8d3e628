use imvi::files::{ImageContainer, ListedFile};

fn collection(n: usize) -> ImageContainer<u32> {
    let listing: Vec<ListedFile> = (0..n).map(|i| ListedFile { name: format!("{}.png", i), is_file: true }).collect();
    ImageContainer::load(&"d".to_string(), &listing)
}

#[test]
fn next_stops_at_last_entry() {
    let mut c = collection(3);
    assert!(c.next());
    assert_eq!(c.index(), 1);
    assert!(c.next());
    assert_eq!(c.index(), 2);
    assert!(!c.next());
    assert_eq!(c.index(), 2);
}

#[test]
fn prev_stops_at_first_entry() {
    let mut c = collection(3);
    assert!(!c.prev());
    assert_eq!(c.index(), 0);
    c.next();
    assert!(c.prev());
    assert_eq!(c.index(), 0);
    assert!(!c.prev());
}

#[test]
fn any_moves_stay_in_range() {
    let mut c = collection(4);
    let moves = [true, true, false, true, true, true, true, false, false, false, false, false, true];
    for m in moves {
        if m {
            c.next();
        } else {
            c.prev();
        }
        assert!(c.index() < c.len());
    }
    assert_eq!(c.index(), 1);
}

#[test]
fn empty_collection_never_moves() {
    let mut c = collection(0);
    for _ in 0..3 {
        assert!(!c.next());
        assert!(!c.prev());
        assert_eq!(c.index(), 0);
    }
}

#[test]
fn single_entry_never_moves() {
    let mut c = collection(1);
    assert!(!c.next());
    assert!(!c.prev());
    assert_eq!(c.index(), 0);
}

#[test]
fn title_counts_from_one() {
    let mut c = collection(12);
    assert_eq!(c.title(), "[1/12] 0.png - imvi");
    for _ in 0..10 {
        c.next();
    }
    assert_eq!(c.title(), "[11/12] 10.png - imvi");
    assert_eq!(collection(0).title(), "imvi");
}
