use dirbrowse::dir::Dir;
use dirbrowse::entry::FileInfo;
use dirbrowse::render::{render, render_row, Tag, Ui};

fn entry(is_dir: bool, name: &str, size: u64) -> FileInfo {
    FileInfo::new(
        is_dir,
        String::from(name),
        size,
        String::from("2024-01-02 03:04:05"),
        String::from(if is_dir { "drwxr-xr-x" } else { "-rw-r--r--" }),
    )
    .unwrap()
}

fn ten_entries() -> Dir {
    let mut files = Vec::new();
    for i in 0..10 {
        files.push(entry(false, &format!("f{}", i), i));
    }
    Dir::new(String::from("/r"), Ok(files)).unwrap()
}

#[test]
fn row_of_a_file_shows_its_size() {
    let row = render_row(&entry(false, "zeta", 10), false);
    assert_eq!(row.text, "-rw-r--r-- zeta 10 bytes 2024-01-02 03:04:05");
    assert_eq!(row.tag, Tag::File);
    assert!(!row.highlighted);
}

#[test]
fn row_of_a_directory_shows_no_size() {
    let row = render_row(&entry(true, "Alpha", 4096), true);
    assert_eq!(row.text, "drwxr-xr-x Alpha 2024-01-02 03:04:05");
    assert_eq!(row.tag, Tag::Directory);
    assert!(row.highlighted);
}

#[test]
fn row_of_an_empty_file() {
    let row = render_row(&entry(false, "empty", 0), false);
    assert_eq!(row.text, "-rw-r--r-- empty 0 bytes 2024-01-02 03:04:05");
}

#[test]
fn listing_is_rendered_in_order() {
    let dir = Dir::new(
        String::from("/r"),
        Ok(vec![entry(false, "zeta", 10), entry(true, "Alpha", 0)]),
    )
    .unwrap();
    let rows = render(&dir, 0, 24);
    assert_eq!(rows.len(), 2);
    assert!(rows[0].text.contains("Alpha"));
    assert_eq!(rows[0].tag, Tag::Directory);
    assert!(rows[0].highlighted);
    assert!(rows[1].text.contains("zeta"));
    assert!(rows[1].text.contains("10 bytes"));
    assert_eq!(rows[1].tag, Tag::File);
    assert!(!rows[1].highlighted);
}

#[test]
fn window_holds_the_cursor_row() {
    let dir = ten_entries();
    let rows = render(&dir, 8, 5);
    let first = 8;
    let last = first + rows.len() - 1;
    assert!(first <= 8);
    assert!(last >= 8);
    assert_eq!(rows.len(), 2);
    assert_eq!(rows.iter().filter(|r| r.highlighted).count(), 1);
    assert!(rows[0].highlighted);
    assert!(rows[0].text.contains("f8"));
    assert!(rows[1].text.contains("f9"));
}

#[test]
fn window_is_cut_at_the_viewport_height() {
    let dir = ten_entries();
    let rows = render(&dir, 2, 5);
    assert_eq!(rows.len(), 5);
    assert!(rows[0].text.contains("f2"));
    assert!(rows[4].text.contains("f6"));
    assert_eq!(rows.iter().filter(|r| r.highlighted).count(), 1);
    assert!(rows[0].highlighted);
}

#[test]
fn window_of_height_zero_and_of_an_empty_directory() {
    let dir = ten_entries();
    assert_eq!(render(&dir, 3, 0).len(), 0);
    let empty = Dir::new(String::from("/r"), Ok(Vec::new())).unwrap();
    assert_eq!(render(&empty, 0, 10).len(), 0);
    assert_eq!(render(&dir, 10, 10).len(), 0);
}

#[test]
fn rendering_twice_gives_equal_rows() {
    let dir = ten_entries();
    assert_eq!(render(&dir, 4, 3), render(&dir, 4, 3));
}

#[test]
fn rendering_changes_nothing() {
    let dir = ten_entries();
    let files = dir.files.clone();
    let _ = render(&dir, 4, 3);
    assert_eq!(dir.files, files);
    assert_eq!(dir.current_path, "/r");
}

#[test]
fn display_sorts_and_titles_the_frame() {
    let mut ui = Ui::from(Dir {
        files: vec![entry(false, "zeta", 10), entry(true, "Alpha", 0)],
        last_dir_path: None,
        current_path: String::from("/r"),
    });
    let frame = ui.display("/r", 24);
    assert_eq!(frame.title, "/r");
    assert_eq!(frame.rows.len(), 2);
    assert_eq!(frame.rows[0].text, "drwxr-xr-x Alpha 2024-01-02 03:04:05");
    assert_eq!(frame.rows[1].text, "-rw-r--r-- zeta 10 bytes 2024-01-02 03:04:05");
    assert_eq!(ui.dir.files[0].name, "Alpha");
    assert_eq!(ui.idx, 0);
}
