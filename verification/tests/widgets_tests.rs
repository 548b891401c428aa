use ferio_linux_helper::tui::widgets::SelectableList;

fn list(n: usize) -> SelectableList {
    SelectableList::new((0..n).map(|i| format!("item {}", i)).collect())
}

#[test]
fn new_list_selects_the_first_item() {
    let l = list(3);
    assert_eq!(l.selected(), Some(0));
    assert_eq!(l.selected_index(), 0);
    assert_eq!(l.len(), 3);
    let e = list(0);
    assert_eq!(e.selected(), None);
    assert_eq!(e.selected_index(), 0);
}

#[test]
fn moves_wrap_around() {
    let mut l = list(3);
    l.next();
    l.next();
    assert_eq!(l.selected(), Some(2));
    l.next();
    assert_eq!(l.selected(), Some(0));
    l.previous();
    assert_eq!(l.selected(), Some(2));
}

#[test]
fn next_then_previous_comes_back() {
    for start in 0..4 {
        let mut l = list(4);
        l.select(Some(start));
        l.next();
        l.previous();
        assert_eq!(l.selected(), Some(start));
    }
}

#[test]
fn empty_list_stays_unselected() {
    let mut e = list(0);
    e.next();
    e.previous();
    e.select(Some(3));
    assert_eq!(e.selected(), None);
}

#[test]
fn select_past_the_end_selects_the_last() {
    let mut l = list(3);
    l.select(Some(9));
    assert_eq!(l.selected(), Some(2));
    l.select(None);
    assert_eq!(l.selected(), None);
    l.next();
    assert_eq!(l.selected(), Some(0));
}
