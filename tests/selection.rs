use music_manager::{DirListState, SelectableList};

fn labels(n: usize) -> Vec<String> {
    (0..n).map(|i| format!("entry{}", i)).collect()
}

#[test]
fn advance_wraps_and_stays_in_range() {
    let mut list = SelectableList::new(labels(3));
    assert_eq!(list.selected(), None);
    list.next();
    assert_eq!(list.selected(), Some(0));
    list.next();
    list.next();
    assert_eq!(list.selected(), Some(2));
    list.next();
    assert_eq!(list.selected(), Some(0));
    list.previous();
    assert_eq!(list.selected(), Some(2));
    for step in 0..20 {
        if step % 3 == 0 {
            list.previous();
        } else {
            list.next();
        }
        assert!(list.selected().unwrap() < 3);
    }
}

#[test]
fn full_cycle_returns_to_start() {
    let mut list = SelectableList::new(labels(5));
    list.next();
    list.next();
    let start = list.selected();
    for _ in 0..5 {
        list.next();
    }
    assert_eq!(list.selected(), start);
}

#[test]
fn retreat_from_nothing_selects_first() {
    let mut list = SelectableList::new(labels(4));
    list.previous();
    assert_eq!(list.selected(), Some(0));
    list.previous();
    assert_eq!(list.selected(), Some(3));
}

#[test]
fn empty_list_keeps_no_selection() {
    let mut list = SelectableList::new(vec![]);
    list.next();
    assert_eq!(list.selected(), None);
    list.previous();
    assert_eq!(list.selected(), None);
}

#[test]
fn replace_with_same_items_keeps_selection() {
    let mut list = SelectableList::new(labels(3));
    list.next();
    list.next();
    list.set_items(labels(3));
    assert_eq!(list.selected(), Some(1));
    list.set_items(labels(4));
    assert_eq!(list.selected(), None);
    assert_eq!(list.len(), 4);
    list.next();
    list.unselect();
    assert_eq!(list.selected(), None);
}

#[test]
fn listing_resets_when_paths_change() {
    let paths = vec!["/m/a.flac".to_string(), "/m/b.flac".to_string()];
    let mut dir = DirListState::new("/m".to_string(), paths.clone());
    assert_eq!(dir.list.items(), &vec!["a.flac".to_string(), "b.flac".to_string()]);
    dir.next();
    dir.next();
    assert_eq!(dir.selected_path(), Some("/m/b.flac".to_string()));
    dir.set_items(paths.clone());
    assert_eq!(dir.list.selected(), Some(1));
    let other = vec!["/n/a.flac".to_string(), "/n/b.flac".to_string()];
    dir.set_items(other);
    assert_eq!(dir.list.selected(), None);
    assert_eq!(dir.selected_path(), Some("/n/a.flac".to_string()));
}
