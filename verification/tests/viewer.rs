use passgen::storage::PasswordEntry;
use passgen::viewer::ViewerState;

fn entry(name: &str) -> PasswordEntry {
    PasswordEntry {
        name: name.to_string(),
        password: format!("pw-{}", name),
        created_at: "1".to_string(),
    }
}

fn abc() -> ViewerState {
    ViewerState::new(vec![entry("a"), entry("b"), entry("c")])
}

fn names(state: &ViewerState) -> Vec<String> {
    state.entries.iter().map(|e| e.name.clone()).collect()
}

fn revealed(state: &ViewerState) -> Vec<usize> {
    let mut indices: Vec<usize> = state.revealed.iter().copied().collect();
    indices.sort();
    indices
}

#[test]
fn a_viewer_opens_on_the_first_entry_with_nothing_revealed() {
    let state = abc();
    assert_eq!(names(&state), vec!["a", "b", "c"]);
    assert_eq!(state.selected, 0);
    assert!(state.revealed.is_empty());
    assert_eq!(state.status_message, None);
    assert_eq!(state.edit_buffer, "");
    assert_eq!(state.selected_entry().unwrap().name, "a");
    assert!(ViewerState::new(Vec::new()).selected_entry().is_none());
}

#[test]
fn selecting_stops_at_both_ends_and_clears_the_status() {
    let mut state = abc();
    state.status_message = Some("status".to_string());
    state.select_previous();
    assert_eq!(state.selected, 0);
    assert_eq!(state.status_message, None);
    state.select_next();
    state.select_next();
    assert_eq!(state.selected, 2);
    state.status_message = Some("status".to_string());
    state.select_next();
    assert_eq!(state.selected, 2);
    assert_eq!(state.status_message, None);
    state.select_previous();
    assert_eq!(state.selected, 1);

    let mut empty = ViewerState::new(Vec::new());
    empty.select_next();
    empty.select_previous();
    assert_eq!(empty.selected, 0);
}

#[test]
fn revealing_toggles_the_selected_index() {
    let mut state = abc();
    state.select_next();
    state.toggle_reveal();
    assert_eq!(revealed(&state), vec![1]);
    state.select_next();
    state.toggle_reveal();
    assert_eq!(revealed(&state), vec![1, 2]);
    state.select_previous();
    state.toggle_reveal();
    assert_eq!(revealed(&state), vec![2]);
    state.reveal_all();
    assert_eq!(revealed(&state), vec![0, 1, 2]);
    state.reveal_all();
    assert_eq!(revealed(&state), vec![0, 1, 2]);
    state.hide_all();
    assert!(state.revealed.is_empty());
    assert_eq!(state.selected, 1);
}

#[test]
fn an_edit_starts_from_the_selected_entry() {
    let mut state = abc();
    state.select_next();
    assert!(state.begin_edit_name());
    assert_eq!(state.edit_buffer, "b");
    assert!(state.revealed.is_empty());
    state.edit_buffer.push('!');
    let renamed = state.renamed_entry().unwrap();
    assert_eq!((renamed.name.as_str(), renamed.password.as_str()), ("b!", "pw-b"));
    assert_eq!(renamed.created_at, "1");

    assert!(state.begin_edit_password());
    assert_eq!(state.edit_buffer, "pw-b");
    assert_eq!(revealed(&state), vec![1]);
    state.edit_buffer.clear();
    state.edit_buffer.push_str("new");
    let changed = state.repassworded_entry().unwrap();
    assert_eq!((changed.name.as_str(), changed.password.as_str()), ("b", "new"));
    assert_eq!(names(&state), vec!["a", "b", "c"]);
}

#[test]
fn an_empty_viewer_has_nothing_to_edit() {
    let mut empty = ViewerState::new(Vec::new());
    assert!(!empty.begin_edit_name());
    assert!(!empty.begin_edit_password());
    assert!(empty.renamed_entry().is_none());
    assert!(empty.repassworded_entry().is_none());
    assert!(empty.revealed.is_empty());
    empty.remove_selected();
    empty.replace_selected(entry("x"), "status");
    assert_eq!(empty.entries.len(), 0);
    assert_eq!(empty.status_message, None);
}

#[test]
fn removing_keeps_the_selection_on_an_entry() {
    let mut state = abc();
    state.reveal_all();
    state.select_next();
    state.remove_selected();
    assert_eq!(names(&state), vec!["a", "c"]);
    assert_eq!(state.selected, 1);
    assert!(state.revealed.is_empty());
    assert_eq!(state.status_message.as_deref(), Some("✓ Deleted!"));
    state.remove_selected();
    assert_eq!(names(&state), vec!["a"]);
    assert_eq!(state.selected, 0);
    state.remove_selected();
    assert_eq!(state.entries.len(), 0);
    assert_eq!(state.selected, 0);
}

#[test]
fn replacing_changes_the_selected_entry_only() {
    let mut state = abc();
    state.select_next();
    state.select_next();
    state.toggle_reveal();
    state.replace_selected(entry("z"), "✓ Name updated!");
    assert_eq!(names(&state), vec!["a", "b", "z"]);
    assert_eq!(state.entries[2].password, "pw-z");
    assert_eq!(state.selected, 2);
    assert_eq!(revealed(&state), vec![2]);
    assert_eq!(state.status_message.as_deref(), Some("✓ Name updated!"));
}
