use explorer_shell::entry::{is_listed, same_chars, EntryKind, FileEntry};
use explorer_shell::error::{file_read_failure, file_write_failure, CommandError};
use explorer_shell::listing::{arrange_listing, check_target, finish_listing, RawChild};
use explorer_shell::order::{chars_in_order, entries_in_order, name_precedes, sort_entries};
use explorer_shell::window::{maximize_action, WindowAction};

fn child(name: &str, is_dir: bool, size: Option<u64>) -> Option<RawChild> {
    Some(RawChild {
        name: name.to_string(),
        path: format!("/work/{}", name),
        is_dir,
        size,
    })
}

fn names(v: &[FileEntry]) -> Vec<String> {
    v.iter().map(|e| e.name.clone()).collect()
}

#[test]
fn missing_path_is_not_found() {
    let r = check_target("/no/such/place", false, false);
    assert!(matches!(r, Err(CommandError::NotFound(ref p)) if p == "/no/such/place"));
    let r = check_target("/no/such/place", false, true);
    assert!(matches!(r, Err(CommandError::NotFound(_))));
}

#[test]
fn regular_file_is_not_a_directory() {
    let r = check_target("/work/notes.txt", true, false);
    assert!(matches!(r, Err(CommandError::NotADirectory(ref p)) if p == "/work/notes.txt"));
}

#[test]
fn existing_directory_is_accepted() {
    assert!(check_target("/work", true, true).is_ok());
}

#[test]
fn hidden_and_excluded_children_are_left_out_and_rest_ordered() {
    let children = vec![
        child(".git", true, Some(4096)),
        child("node_modules", true, Some(4096)),
        child("src", true, Some(4096)),
        child("Readme.md", false, Some(120)),
        child("app.go", false, Some(300)),
    ];
    let r = arrange_listing(children);
    assert_eq!(names(&r), vec!["src", "app.go", "Readme.md"]);
    assert_eq!(r[0].kind, EntryKind::Directory);
    assert_eq!(r[1].kind, EntryKind::File);
    assert_eq!(r[1].path, "/work/app.go");
    assert_eq!(r[2].size, 120);
}

#[test]
fn every_excluded_name_is_dropped_case_sensitively() {
    let children = vec![
        child("target", true, None),
        child("_build", true, None),
        child("deps", true, None),
        child("node_modules", true, None),
        child("Target", true, None),
    ];
    let r = arrange_listing(children);
    assert_eq!(names(&r), vec!["Target"]);
    assert!(!is_listed(".env"));
    assert!(!is_listed("deps"));
    assert!(is_listed("deps2"));
    assert!(is_listed("Deps"));
    assert!(is_listed("a.b"));
}

#[test]
fn directories_sort_before_files_whatever_the_name() {
    let children = vec![
        child("aaa.txt", false, Some(1)),
        child("Zeta", true, Some(2)),
        child("b.rs", false, Some(3)),
        child("zz", true, Some(4)),
    ];
    let r = arrange_listing(children);
    assert_eq!(names(&r), vec!["Zeta", "zz", "aaa.txt", "b.rs"]);
}

#[test]
fn names_compare_without_case() {
    assert!(name_precedes("apple", "Zebra"));
    assert!(!name_precedes("Zebra", "apple"));
    assert!(name_precedes("a", "B"));
    assert!(!name_precedes("B", "a"));
    assert!(name_precedes("Doc", "doc"));
    assert!(name_precedes("doc", "Doc"));
}

#[test]
fn code_point_order_is_exact() {
    assert!(chars_in_order("", ""));
    assert!(chars_in_order("", "a"));
    assert!(!chars_in_order("a", ""));
    assert!(chars_in_order("ab", "abc"));
    assert!(!chars_in_order("abd", "abc"));
    assert!(chars_in_order("B", "a"));
    assert!(same_chars("deps", "deps"));
    assert!(!same_chars("deps", "dep"));
}

#[test]
fn sort_groups_and_orders() {
    let e = |n: &str, k: EntryKind| FileEntry {
        name: n.to_string(),
        path: n.to_string(),
        kind: k,
        size: 0,
    };
    let v = vec![
        e("b", EntryKind::File),
        e("C", EntryKind::Directory),
        e("A", EntryKind::File),
        e("a2", EntryKind::Directory),
    ];
    assert!(entries_in_order(&v[1], &v[0]));
    assert!(!entries_in_order(&v[0], &v[1]));
    let r = sort_entries(v);
    assert_eq!(names(&r), vec!["a2", "C", "A", "b"]);
}

#[test]
fn unreadable_records_are_dropped_and_missing_sizes_are_zero() {
    let children = vec![None, child("x.txt", false, None), None];
    let r = arrange_listing(children);
    assert_eq!(r.len(), 1);
    assert_eq!(r[0].size, 0);
}

#[test]
fn empty_directory_lists_nothing() {
    assert!(arrange_listing(Vec::new()).is_empty());
}

#[test]
fn read_failure_carries_its_cause() {
    let r = finish_listing(Err("permission denied".to_string()));
    match r {
        Err(e) => {
            assert!(matches!(e, CommandError::ReadFailure(_)));
            assert_eq!(e.message(), "Failed to read directory: permission denied");
        }
        Ok(_) => panic!("expected a read failure"),
    }
    let ok = finish_listing(Ok(vec![child("b", false, Some(1)), child("a", false, Some(2))]));
    assert_eq!(names(&ok.unwrap()), vec!["a", "b"]);
}

#[test]
fn messages_name_the_path() {
    assert_eq!(
        CommandError::NotFound("/x".to_string()).message(),
        "Directory does not exist: /x"
    );
    assert_eq!(
        CommandError::NotADirectory("/x".to_string()).message(),
        "Path is not a directory: /x"
    );
    let e = file_read_failure("/a.txt", "gone");
    assert!(matches!(e, CommandError::ReadFailure(_)));
    assert_eq!(e.message(), "Failed to read file /a.txt: gone");
    let e = file_write_failure("/a.txt", "full");
    assert!(matches!(e, CommandError::WriteFailure(_)));
    assert_eq!(e.message(), "Failed to save file /a.txt: full");
}

#[test]
fn maximize_twice_restores_the_state() {
    for start in [false, true] {
        let first = maximize_action(start);
        let after_first = first == WindowAction::Maximize;
        assert_eq!(after_first, !start);
        let second = maximize_action(after_first);
        let after_second = second == WindowAction::Maximize;
        assert_eq!(after_second, start);
    }
    assert_eq!(maximize_action(true), WindowAction::Unmaximize);
    assert_eq!(maximize_action(false), WindowAction::Maximize);
}
