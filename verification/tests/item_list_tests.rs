use withlist::item_list::DeleteOutcome;
use withlist::item_list::ItemList;
use withlist::item_list::SubmitOutcome;
use withlist::mode::Mode;

fn strings(names: &[&str]) -> Vec<String> {
    names.iter().map(|n| n.to_string()).collect()
}

fn listed(names: &[&str], mode: Mode) -> ItemList {
    let mut l = ItemList::new(mode);
    l.set_items(strings(names));
    l
}

#[test]
fn removes_selected_rows_descending() {
    let mut l = listed(&["A", "B", "C", "D"], Mode::Remove);
    let out = l.delete_sel_items(&vec![0, 2]);
    assert_eq!(out, DeleteOutcome::Removed);
    assert_eq!(l.items(), strings(&["B", "D"]));
}

#[test]
fn removal_shrinks_by_selection_size() {
    let mut l = listed(&["A", "B", "C", "D", "E"], Mode::Remove);
    let out = l.delete_sel_items(&vec![1, 3, 4]);
    assert_eq!(out, DeleteOutcome::Removed);
    assert_eq!(l.items().len(), 2);
    assert_eq!(l.items(), strings(&["A", "C"]));
}

#[test]
fn unsorted_selection_is_sorted_first() {
    let mut l = listed(&["A", "B", "C", "D"], Mode::Remove);
    let out = l.delete_sel_items(&vec![3, 1, 0]);
    assert_eq!(out, DeleteOutcome::Removed);
    assert_eq!(l.items(), strings(&["C"]));
}

#[test]
fn whole_selection_removes_everything() {
    let mut l = listed(&["A", "B"], Mode::Remove);
    let out = l.delete_sel_items(&vec![1, 0]);
    assert_eq!(out, DeleteOutcome::Removed);
    assert!(l.items().is_empty());
}

#[test]
fn out_of_range_selection_rejected_whole() {
    let mut l = listed(&["A", "B"], Mode::Remove);
    let out = l.delete_sel_items(&vec![0, 5]);
    assert_eq!(out, DeleteOutcome::OutOfRange);
    assert_eq!(l.items(), strings(&["A", "B"]));
}

#[test]
fn empty_selection_is_noop() {
    let mut l = listed(&["A", "B"], Mode::Remove);
    let out = l.delete_sel_items(&vec![]);
    assert_eq!(out, DeleteOutcome::Removed);
    assert_eq!(l.items(), strings(&["A", "B"]));
}

#[test]
fn removal_ignored_outside_remove_mode() {
    for mode in [Mode::Reorder, Mode::Add, Mode::Find] {
        let mut l = listed(&["A", "B", "C"], mode);
        let out = l.delete_sel_items(&vec![0, 1]);
        assert_eq!(out, DeleteOutcome::Ignored);
        assert_eq!(l.items(), strings(&["A", "B", "C"]));
        assert_eq!(l.mode(), mode);
    }
}

#[test]
fn empty_text_rejected_in_add_mode() {
    let mut l = listed(&["A"], Mode::Add);
    l.set_cb_items(strings(&["A", "B"]));
    let out = l.submit_entry(&String::new());
    assert_eq!(out, SubmitOutcome::EmptyInput);
    assert_eq!(l.items(), strings(&["A"]));
}

#[test]
fn unrecognized_text_rejected() {
    let mut l = listed(&["A"], Mode::Add);
    l.set_cb_items(strings(&["A", "B"]));
    let out = l.submit_entry(&"zzz".to_string());
    assert_eq!(out, SubmitOutcome::NotInPulldown);
    assert_eq!(l.items(), strings(&["A"]));
}

#[test]
fn pulldown_match_is_case_sensitive() {
    let mut l = listed(&[], Mode::Add);
    l.set_cb_items(strings(&["Foo"]));
    let out = l.submit_entry(&"foo".to_string());
    assert_eq!(out, SubmitOutcome::NotInPulldown);
    assert!(l.items().is_empty());
}

#[test]
fn duplicate_text_navigates_to_existing() {
    let mut l = listed(&["Foo", "Bar"], Mode::Add);
    l.set_cb_items(strings(&["Foo", "Bar", "Bla"]));
    let out = l.submit_entry(&"Bar".to_string());
    assert_eq!(out, SubmitOutcome::Duplicate(1));
    assert_eq!(l.items(), strings(&["Foo", "Bar"]));
}

#[test]
fn valid_text_appended_at_end() {
    let mut l = listed(&["Foo"], Mode::Add);
    l.set_cb_items(strings(&["Foo", "Bar"]));
    let out = l.submit_entry(&"Bar".to_string());
    assert_eq!(out, SubmitOutcome::Added(1));
    assert_eq!(l.items(), strings(&["Foo", "Bar"]));
}

#[test]
fn find_mode_returns_scroll_target() {
    let mut l = listed(&["a", "b", "c"], Mode::Find);
    let out = l.submit_entry(&"b".to_string());
    assert_eq!(out, SubmitOutcome::Found(1));
    assert_eq!(l.items(), strings(&["a", "b", "c"]));
}

#[test]
fn find_mode_miss_changes_nothing() {
    let mut l = listed(&["a", "b"], Mode::Find);
    let out = l.submit_entry(&"x".to_string());
    assert_eq!(out, SubmitOutcome::NotFound);
    assert_eq!(l.items(), strings(&["a", "b"]));
}

#[test]
fn submit_outside_add_mode_searches_instead() {
    let mut l = listed(&["a", "b"], Mode::Remove);
    l.set_cb_items(strings(&["c"]));
    let out = l.submit_entry(&"b".to_string());
    assert_eq!(out, SubmitOutcome::Found(1));
    assert_eq!(l.items(), strings(&["a", "b"]));
}

#[test]
fn find_item_returns_first_match() {
    let l = listed(&["a", "b", "a"], Mode::Add);
    assert_eq!(l.find_item(&"a".to_string()), Some(0));
    assert_eq!(l.find_item(&"b".to_string()), Some(1));
    assert_eq!(l.find_item(&"x".to_string()), None);
}

#[test]
fn mode_transitions_are_exclusive() {
    let mut l = ItemList::new(Mode::Add);
    assert_eq!(l.mode(), Mode::Add);
    assert!(!l.drag_enabled());
    assert!(l.entry_enabled());

    l.set_remove_mode();
    assert_eq!(l.mode(), Mode::Remove);
    assert!(!l.drag_enabled());
    assert!(!l.entry_enabled());

    l.set_reorder_mode();
    assert_eq!(l.mode(), Mode::Reorder);
    assert!(l.drag_enabled());
    assert!(!l.entry_enabled());

    l.set_find_mode();
    assert_eq!(l.mode(), Mode::Find);
    assert!(!l.drag_enabled());
    assert!(l.entry_enabled());

    l.set_add_mode();
    assert_eq!(l.mode(), Mode::Add);
}

#[test]
fn initial_mode_comes_from_constructor() {
    let l = ItemList::new(Mode::Reorder);
    assert_eq!(l.mode(), Mode::Reorder);
    assert!(l.items().is_empty());
}

#[test]
fn clear_keeps_pulldown_and_mode() {
    let mut l = listed(&["A", "B"], Mode::Add);
    l.set_cb_items(strings(&["C"]));
    l.clear();
    assert!(l.items().is_empty());
    assert_eq!(l.mode(), Mode::Add);
    // the pulldown still recognizes its entry
    let out = l.submit_entry(&"C".to_string());
    assert_eq!(out, SubmitOutcome::Added(0));
}

#[test]
fn add_item_appends_unconditionally() {
    let mut l = listed(&["A"], Mode::Reorder);
    l.add_item("A".to_string());
    assert_eq!(l.items(), strings(&["A", "A"]));
}

#[test]
fn removing_pulldown_entries_rejects_all_text() {
    let mut l = listed(&[], Mode::Add);
    l.set_cb_items(strings(&["Foo"]));
    l.remove_cb_items();
    let out = l.submit_entry(&"Foo".to_string());
    assert_eq!(out, SubmitOutcome::NotInPulldown);
}
