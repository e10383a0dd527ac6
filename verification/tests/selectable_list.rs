use tui_lab::selectable_list::SelectableList;

fn names(items: &[&str]) -> Vec<String> {
    items.iter().map(|item| item.to_string()).collect()
}

#[test]
fn three_items_wrap_to_the_top_after_three_steps() {
    let mut list = SelectableList::new(names(&["Item1", "Item2", "Item3"]));
    assert_eq!(list.selected, Some(0));
    list.next();
    assert_eq!(list.selected, Some(1));
    list.next();
    list.next();
    assert_eq!(list.selected, Some(0));
}

#[test]
fn previous_wraps_from_the_first_item_to_the_last() {
    let mut list = SelectableList::new(names(&["Item1", "Item2", "Item3"]));
    list.previous();
    assert_eq!(list.selected, Some(2));
    list.previous();
    assert_eq!(list.selected, Some(1));
    list.previous();
    assert_eq!(list.selected, Some(0));
}

#[test]
fn new_list_selects_the_first_item() {
    let list = SelectableList::new(vec![10, 20]);
    assert_eq!(list.selected, Some(0));
    assert_eq!(list.len(), 2);
    assert_eq!(list.current(), Some(&10));
}

#[test]
fn new_empty_list_selects_nothing() {
    let list: SelectableList<u8> = SelectableList::new(Vec::new());
    assert_eq!(list.selected, None);
    assert_eq!(list.len(), 0);
    assert_eq!(list.current(), None);
}

#[test]
fn steps_on_an_empty_list_leave_nothing_selected() {
    let mut list: SelectableList<u8> = SelectableList::new(Vec::new());
    list.next();
    assert_eq!(list.selected, None);
    list.previous();
    assert_eq!(list.selected, None);
    let mut stray: SelectableList<u8> = SelectableList { items: Vec::new(), selected: Some(4) };
    stray.next();
    assert_eq!(stray.selected, None);
    let mut stray: SelectableList<u8> = SelectableList { items: Vec::new(), selected: Some(4) };
    stray.previous();
    assert_eq!(stray.selected, None);
}

#[test]
fn steps_without_a_selection_select_the_first_item() {
    let mut list = SelectableList { items: vec![1, 2, 3], selected: None };
    list.next();
    assert_eq!(list.selected, Some(0));
    let mut list = SelectableList { items: vec![1, 2, 3], selected: None };
    list.previous();
    assert_eq!(list.selected, Some(0));
}

#[test]
fn a_full_round_of_steps_returns_to_every_starting_item() {
    for len in 1..7usize {
        for start in 0..len {
            let mut list = SelectableList { items: vec![0u8; len], selected: Some(start) };
            for _ in 0..len {
                list.next();
            }
            assert_eq!(list.selected, Some(start));
            for _ in 0..len {
                list.previous();
            }
            assert_eq!(list.selected, Some(start));
        }
    }
}

#[test]
fn a_selection_beyond_the_list_is_brought_back() {
    let mut list = SelectableList { items: vec![1, 2, 3], selected: Some(9) };
    assert_eq!(list.current(), None);
    list.next();
    assert_eq!(list.selected, Some(0));
    let mut list = SelectableList { items: vec![1, 2, 3], selected: Some(9) };
    list.previous();
    assert_eq!(list.selected, Some(2));
}

#[test]
fn current_is_the_selected_item() {
    let mut list = SelectableList::new(names(&["a", "b"]));
    assert_eq!(list.current().map(String::as_str), Some("a"));
    list.next();
    assert_eq!(list.current().map(String::as_str), Some("b"));
    list.selected = None;
    assert_eq!(list.current(), None);
}

#[test]
fn replace_items_keeps_the_selection_as_far_as_the_list_allows() {
    let mut list = SelectableList { items: vec![1, 2, 3, 4], selected: Some(3) };
    list.replace_items(vec![7, 8, 9, 10, 11]);
    assert_eq!(list.items, vec![7, 8, 9, 10, 11]);
    assert_eq!(list.selected, Some(3));
    list.replace_items(vec![5, 6]);
    assert_eq!(list.selected, Some(1));
    list.replace_items(Vec::new());
    assert_eq!(list.selected, None);
    list.replace_items(vec![1]);
    assert_eq!(list.selected, Some(0));
}
