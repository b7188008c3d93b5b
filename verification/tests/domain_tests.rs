use file_tinder::domain::{
    is_hidden_name, sort_by_modified, AppState, Decision, FileEntry, FileType,
};

fn mk_entry(name: &str) -> FileEntry {
    FileEntry {
        path: String::from(name),
        name: name.to_string(),
        size: 0,
        modified: 0,
        file_type: FileType::Text,
    }
}

#[test]
fn test_file_type_from_extension_text() {
    assert_eq!(FileType::from_extension("txt"), FileType::Text);
    assert_eq!(FileType::from_extension("rs"), FileType::Text);
    assert_eq!(FileType::from_extension("py"), FileType::Text);
    assert_eq!(FileType::from_extension("js"), FileType::Text);
    assert_eq!(FileType::from_extension("md"), FileType::Text);
}

#[test]
fn test_file_type_from_extension_image() {
    assert_eq!(FileType::from_extension("png"), FileType::Image);
    assert_eq!(FileType::from_extension("jpg"), FileType::Image);
    assert_eq!(FileType::from_extension("jpeg"), FileType::Image);
    assert_eq!(FileType::from_extension("gif"), FileType::Image);
    assert_eq!(FileType::from_extension("webp"), FileType::Image);
}

#[test]
fn test_file_type_from_extension_pdf() {
    assert_eq!(FileType::from_extension("pdf"), FileType::Pdf);
}

#[test]
fn test_file_type_from_extension_binary() {
    assert_eq!(FileType::from_extension("exe"), FileType::Binary);
    assert_eq!(FileType::from_extension("bin"), FileType::Binary);
    assert_eq!(FileType::from_extension("unknown"), FileType::Binary);
    assert_eq!(FileType::from_extension(""), FileType::Binary);
}

#[test]
fn test_file_type_case_insensitive() {
    assert_eq!(FileType::from_extension("PNG"), FileType::Image);
    assert_eq!(FileType::from_extension("TXT"), FileType::Text);
    assert_eq!(FileType::from_extension("PDF"), FileType::Pdf);
}

#[test]
fn test_app_state_new() {
    let files = vec![mk_entry("file1.txt"), mk_entry("file2.txt")];
    let state = AppState::new(files.clone());

    assert_eq!(state.files.len(), 2);
    assert_eq!(state.current_index, 0);
    assert_eq!(state.decisions_stack.len(), 0);
}

#[test]
fn test_app_state_next() {
    let files = vec![mk_entry("file1.txt"), mk_entry("file2.txt")];
    let mut state = AppState::new(files);

    assert_eq!(state.current_index, 0);

    state.next();
    assert_eq!(state.current_index, 1);

    state.next();
    assert_eq!(state.current_index, 1); // Should stay at last item
}

#[test]
fn test_app_state_previous() {
    let files = vec![mk_entry("file1.txt"), mk_entry("file2.txt")];
    let mut state = AppState::new(files);
    state.current_index = 1;

    state.previous();
    assert_eq!(state.current_index, 0);

    state.previous();
    assert_eq!(state.current_index, 0); // Should stay at first item
}

#[test]
fn test_app_state_current_file() {
    let files = vec![mk_entry("file1.txt"), mk_entry("file2.txt")];
    let state = AppState::new(files);

    let current = state.current_file();
    assert!(current.is_some());
    assert_eq!(current.unwrap().name, "file1.txt");
}

#[test]
fn test_app_state_current_file_empty() {
    let state = AppState::new(vec![]);
    assert!(state.current_file().is_none());
}

#[test]
fn test_app_state_record_decision() {
    let files = vec![mk_entry("file1.txt")];
    let mut state = AppState::new(files);

    state.record_decision(Decision::Trash);

    assert_eq!(state.decisions_stack.len(), 1);
    assert_eq!(state.decisions_stack[0], (0, Decision::Trash));
}

#[test]
fn test_app_state_undo() {
    let files = vec![mk_entry("file1.txt"), mk_entry("file2.txt")];
    let mut state = AppState::new(files);

    state.record_decision(Decision::Keep);
    state.next();
    state.record_decision(Decision::Trash);

    assert_eq!(state.current_index, 1);
    assert_eq!(state.decisions_stack.len(), 2);

    let undone = state.undo();
    assert!(undone.is_some());
    assert_eq!(undone.unwrap(), (1, Decision::Trash));
    assert_eq!(state.current_index, 1);
    assert_eq!(state.decisions_stack.len(), 1);
}

#[test]
fn test_app_state_undo_empty() {
    let files = vec![mk_entry("file1.txt")];
    let mut state = AppState::new(files);

    let undone = state.undo();
    assert!(undone.is_none());
}

#[test]
fn advance_repeatedly_stops_at_last_index() {
    let files = vec![mk_entry("a"), mk_entry("b"), mk_entry("c")];
    let mut state = AppState::new(files);
    for _ in 0..5 {
        state.next();
    }
    assert_eq!(state.current_index, 2);

    let mut two_steps = AppState::new(vec![mk_entry("a"), mk_entry("b"), mk_entry("c")]);
    two_steps.next();
    two_steps.next();
    assert_eq!(two_steps.current_index, 2);
}

#[test]
fn advance_on_empty_list_is_noop() {
    let mut state = AppState::new(vec![]);
    state.next();
    assert_eq!(state.current_index, 0);
}

#[test]
fn retreat_from_start_is_idempotent_noop() {
    let files = vec![mk_entry("a"), mk_entry("b")];
    let mut state = AppState::new(files);
    state.previous();
    assert_eq!(state.current_index, 0);
    state.previous();
    assert_eq!(state.current_index, 0);
}

#[test]
fn hidden_names_start_with_a_dot() {
    assert!(is_hidden_name(".hidden"));
    assert!(is_hidden_name(".gitignore"));
    assert!(!is_hidden_name("visible.txt"));
    assert!(!is_hidden_name(""));
    assert!(!is_hidden_name("dotted.name"));
}

#[test]
fn sort_by_modified_orders_ascending() {
    let mut a = mk_entry("newest.txt");
    a.modified = 30;
    let mut b = mk_entry("oldest.txt");
    b.modified = 10;
    let mut c = mk_entry("middle.txt");
    c.modified = 20;
    let mut files = vec![a, b, c];
    sort_by_modified(&mut files);
    assert_eq!(files[0].name, "oldest.txt");
    assert_eq!(files[1].name, "middle.txt");
    assert_eq!(files[2].name, "newest.txt");
    assert!(files[0].modified <= files[1].modified);
    assert!(files[1].modified <= files[2].modified);
}

#[test]
fn sort_by_modified_keeps_every_record() {
    let mut a = mk_entry("a");
    a.modified = 5;
    let mut b = mk_entry("b");
    b.modified = 5;
    let mut c = mk_entry("c");
    c.modified = 1;
    let mut files = vec![a, b, c];
    sort_by_modified(&mut files);
    assert_eq!(files.len(), 3);
    let mut names: Vec<&str> = files.iter().map(|f| f.name.as_str()).collect();
    names.sort();
    assert_eq!(names, vec!["a", "b", "c"]);
    assert_eq!(files[0].name, "c");
}
