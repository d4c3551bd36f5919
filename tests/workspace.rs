use histoer::workspace::{DirEntry, Workspacer};

fn entry(path: &str, is_file: bool, ext: Option<&str>) -> DirEntry {
    DirEntry { path: path.to_string(), is_file, extension: ext.map(|e| e.to_string()) }
}

fn listing() -> Vec<DirEntry> {
    vec![
        entry("/d/run_1.parquet", true, Some("parquet")),
        entry("/d/notes.txt", true, Some("txt")),
        entry("/d/sub.parquet", false, Some("parquet")),
        entry("/d/README", true, None),
        entry("/d/run_2.parquet", true, Some("parquet")),
        entry("/d/run_3.PARQUET", true, Some("PARQUET")),
    ]
}

fn strings(v: &[&str]) -> Vec<String> {
    v.iter().map(|s| s.to_string()).collect()
}

#[test]
fn new_workspace_is_empty() {
    let w = Workspacer::new();
    assert!(w.directory.is_none());
    assert!(w.files.is_empty());
    assert!(w.selected_files.is_empty());
    assert!(w.get_directory().is_none());
}

#[test]
fn selecting_a_directory_lists_parquet_files() {
    let mut w = Workspacer::new();
    w.select_directory("/d".to_string(), &listing());
    assert_eq!(w.get_directory(), Some(&"/d".to_string()));
    assert_eq!(w.files, strings(&["/d/run_1.parquet", "/d/run_2.parquet"]));
    assert!(w.selected_files.is_empty());
}

#[test]
fn select_all_and_clear() {
    let mut w = Workspacer::new();
    w.select_directory("/d".to_string(), &listing());
    w.select_all_files();
    assert_eq!(w.selected_files, w.files);
    w.clear_selected_files();
    assert!(w.selected_files.is_empty());
    assert_eq!(w.files.len(), 2);
}

#[test]
fn refresh_drops_vanished_selections() {
    let mut w = Workspacer::new();
    w.select_directory("/d".to_string(), &listing());
    w.select_all_files();
    let mut later = listing();
    later.remove(0);
    w.refresh_files(&later);
    assert_eq!(w.files, strings(&["/d/run_2.parquet"]));
    assert_eq!(w.selected_files, strings(&["/d/run_2.parquet"]));
}

#[test]
fn refresh_without_directory_changes_nothing() {
    let mut w = Workspacer::new();
    w.refresh_files(&listing());
    assert!(w.files.is_empty());
    assert!(w.directory.is_none());
}

#[test]
fn validate_keeps_order_of_present_files() {
    let mut w = Workspacer::new();
    w.files = strings(&["a", "b", "c"]);
    w.selected_files = strings(&["c", "x", "a", "y"]);
    w.validate_selected_files();
    assert_eq!(w.selected_files, strings(&["c", "a"]));
}

#[test]
fn toggling_adds_then_removes() {
    let mut w = Workspacer::new();
    w.select_directory("/d".to_string(), &listing());
    let f = "/d/run_2.parquet".to_string();
    assert!(!w.is_selected(&f));
    w.toggle_selection(&f);
    assert!(w.is_selected(&f));
    w.toggle_selection(&"/d/run_1.parquet".to_string());
    assert_eq!(w.selected_files, strings(&["/d/run_2.parquet", "/d/run_1.parquet"]));
    w.toggle_selection(&f);
    assert_eq!(w.selected_files, strings(&["/d/run_1.parquet"]));
}

#[test]
fn get_parquet_files_replaces_previous_list() {
    let mut w = Workspacer::new();
    w.files = strings(&["old"]);
    w.get_parquet_files_in_directory(&vec![entry("/e/new.parquet", true, Some("parquet"))]);
    assert_eq!(w.files, strings(&["/e/new.parquet"]));
}
