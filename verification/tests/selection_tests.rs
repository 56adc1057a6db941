use temple_stats::error::ErrorKind;
use temple_stats::selection::StatefulList;

fn list(n: usize) -> StatefulList {
    StatefulList::with_items((0..n).map(|i| format!("item {i}")).collect())
}

#[test]
fn with_items_selects_nothing() {
    let l = list(3);
    assert_eq!(l.selected(), None);
    assert_eq!(l.items().len(), 3);
    assert_eq!(l.items()[1], "item 1");
}

#[test]
fn next_starts_at_the_first_item() {
    let mut l = list(3);
    l.next();
    assert_eq!(l.selected(), Some(0));
}

#[test]
fn next_moves_forward_and_wraps() {
    let mut l = list(3);
    l.next();
    l.next();
    assert_eq!(l.selected(), Some(1));
    l.next();
    assert_eq!(l.selected(), Some(2));
    l.next();
    assert_eq!(l.selected(), Some(0));
}

#[test]
fn previous_starts_at_the_first_item() {
    let mut l = list(3);
    l.previous();
    assert_eq!(l.selected(), Some(0));
}

#[test]
fn previous_moves_back_and_wraps() {
    let mut l = list(3);
    l.previous();
    l.previous();
    assert_eq!(l.selected(), Some(2));
    l.previous();
    assert_eq!(l.selected(), Some(1));
    l.previous();
    assert_eq!(l.selected(), Some(0));
}

#[test]
fn next_and_previous_undo_each_other() {
    for start in 0..5 {
        let mut l = list(5);
        assert_eq!(l.select(Some(start)), Ok(()));
        l.next();
        l.previous();
        assert_eq!(l.selected(), Some(start));
        l.previous();
        l.next();
        assert_eq!(l.selected(), Some(start));
    }
}

#[test]
fn a_full_round_returns_to_the_start() {
    let mut l = list(24);
    assert_eq!(l.select(Some(7)), Ok(()));
    for _ in 0..24 {
        l.next();
    }
    assert_eq!(l.selected(), Some(7));
    for _ in 0..24 {
        l.previous();
    }
    assert_eq!(l.selected(), Some(7));
}

#[test]
fn single_item_stays_selected() {
    let mut l = list(1);
    l.next();
    assert_eq!(l.selected(), Some(0));
    l.next();
    assert_eq!(l.selected(), Some(0));
    l.previous();
    assert_eq!(l.selected(), Some(0));
}

#[test]
fn empty_list_never_has_a_selection() {
    let mut l = list(0);
    l.next();
    assert_eq!(l.selected(), None);
    l.previous();
    assert_eq!(l.selected(), None);
    assert_eq!(l.select(Some(0)), Err(ErrorKind::SelectionError));
    assert_eq!(l.select(None), Ok(()));
}

#[test]
fn unselect_clears_the_selection() {
    let mut l = list(3);
    l.next();
    l.unselect();
    assert_eq!(l.selected(), None);
    l.next();
    assert_eq!(l.selected(), Some(0));
}

#[test]
fn select_rejects_an_index_that_is_no_item() {
    let mut l = list(3);
    assert_eq!(l.select(Some(2)), Ok(()));
    assert_eq!(l.select(Some(3)), Err(ErrorKind::SelectionError));
    assert_eq!(l.selected(), Some(2));
    assert_eq!(l.select(Some(usize::MAX)), Err(ErrorKind::SelectionError));
    assert_eq!(l.selected(), Some(2));
    assert_eq!(l.select(None), Ok(()));
    assert_eq!(l.selected(), None);
}
