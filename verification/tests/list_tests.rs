//! The listing paginator: hidden-file filtering, page sizes and cursors.
use saucepan::files::list;

fn names(n: usize) -> Vec<String> {
    (0..n).map(|i| format!("file{i:02}")).collect()
}

#[test]
fn twenty_five_files_page_in_three_calls() {
    let entries = names(25);

    let first = list(&entries, 0);
    assert_eq!(first.files.len(), 10);
    assert_eq!(first.files, entries[0..10].to_vec());
    assert_eq!(first.next_cursor, Some(10));
    assert_eq!(first.prev_cursor, None);

    let second = list(&entries, 10);
    assert_eq!(second.files.len(), 10);
    assert_eq!(second.files, entries[10..20].to_vec());
    assert_eq!(second.next_cursor, Some(20));
    assert_eq!(second.prev_cursor, Some(0));

    let third = list(&entries, 20);
    assert_eq!(third.files.len(), 5);
    assert_eq!(third.files, entries[20..25].to_vec());
    assert_eq!(third.next_cursor, None);
    assert_eq!(third.prev_cursor, Some(10));
}

#[test]
fn hidden_entries_are_filtered_out() {
    let entries = vec![
        ".hidden".to_string(),
        "a.txt".to_string(),
        ".also-hidden".to_string(),
        "b.txt".to_string(),
    ];
    let page = list(&entries, 0);
    assert_eq!(page.files, vec!["a.txt".to_string(), "b.txt".to_string()]);
    assert_eq!(page.next_cursor, None);
}

#[test]
fn exactly_one_page_has_no_next_cursor() {
    let entries = names(10);
    let page = list(&entries, 0);
    assert_eq!(page.files.len(), 10);
    assert_eq!(page.next_cursor, None);
}

#[test]
fn eleven_files_leave_one_for_the_second_page() {
    let entries = names(11);
    let page = list(&entries, 0);
    assert_eq!(page.files.len(), 10);
    assert_eq!(page.next_cursor, Some(10));
    let rest = list(&entries, 10);
    assert_eq!(rest.files, vec!["file10".to_string()]);
    assert_eq!(rest.next_cursor, None);
    assert_eq!(rest.prev_cursor, Some(0));
}

#[test]
fn cursor_beyond_the_end_yields_an_empty_page() {
    let entries = names(3);
    let page = list(&entries, 50);
    assert!(page.files.is_empty());
    assert_eq!(page.next_cursor, None);
    assert_eq!(page.prev_cursor, Some(40));
}

#[test]
fn empty_directory_lists_nothing() {
    let entries: Vec<String> = vec![];
    let page = list(&entries, 0);
    assert!(page.files.is_empty());
    assert_eq!(page.next_cursor, None);
    assert_eq!(page.prev_cursor, None);
}
