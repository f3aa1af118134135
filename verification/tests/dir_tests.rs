use dirbrowse::dir::Dir;
use dirbrowse::entry::FileInfo;
use dirbrowse::error::{Cause, ListError};
use dirbrowse::order::sort_files;

fn file(name: &str, size: u64) -> FileInfo {
    FileInfo::new(
        false,
        String::from(name),
        size,
        String::from("2024-01-02 03:04:05"),
        String::from("-rw-r--r--"),
    )
    .unwrap()
}

fn folder(name: &str) -> FileInfo {
    FileInfo::new(
        true,
        String::from(name),
        0,
        String::from("2024-01-02 03:04:05"),
        String::from("drwxr-xr-x"),
    )
    .unwrap()
}

fn names(files: &Vec<FileInfo>) -> Vec<String> {
    let mut out = Vec::new();
    for f in files {
        out.push(f.name.clone());
    }
    out
}

#[test]
fn test_new() {
    let a = Dir::new(String::from("/home/mikel/Escritorio/r_ranger/"), Ok(Vec::new())).unwrap();
    assert_eq!(a.current_path, "/home/mikel/Escritorio/r_ranger/")
}

#[test]
fn new_sorts_the_listing_and_remembers_nothing() {
    let d = Dir::new(String::from("/r"), Ok(vec![file("zeta", 10), folder("Alpha")])).unwrap();
    assert_eq!(d.current_path, "/r");
    assert_eq!(d.last_dir_path, None);
    assert_eq!(names(&d.files), vec!["Alpha", "zeta"]);
}

#[test]
fn new_passes_a_failed_listing_on() {
    let r = Dir::new(String::from("/r"), Err(ListError::Unreadable(Cause::PermissionDenied)));
    assert_eq!(r.unwrap_err(), ListError::Unreadable(Cause::PermissionDenied));
}

#[test]
fn from_refuses_a_path_that_is_no_directory() {
    let r = Dir::from(String::from("/r/file.txt"), false, Ok(Vec::new()));
    assert_eq!(r.unwrap_err(), ListError::InvalidStartupPath);
    let r = Dir::from(
        String::from("/missing"),
        false,
        Err(ListError::Unreadable(Cause::NotFound)),
    );
    assert_eq!(r.unwrap_err(), ListError::InvalidStartupPath);
}

#[test]
fn from_starts_in_the_given_directory() {
    let d = Dir::from(String::from("/r/sub"), true, Ok(vec![file("b", 1), file("a", 2)])).unwrap();
    assert_eq!(d.current_path, "/r/sub");
    assert_eq!(d.last_dir_path, None);
    assert_eq!(names(&d.files), vec!["a", "b"]);
    let r = Dir::from(String::from("/r/sub"), true, Err(ListError::Unreadable(Cause::Fault)));
    assert_eq!(r.unwrap_err(), ListError::Unreadable(Cause::Fault));
}

#[test]
fn sorting_ignores_case() {
    let sorted = sort_files(vec![file("b", 1), file("A", 2), file("a2", 3)]);
    assert_eq!(names(&sorted), vec!["A", "a2", "b"]);
}

#[test]
fn sorting_puts_lowercase_before_a_later_capital() {
    let sorted = sort_files(vec![file("B", 1), file("a", 2)]);
    assert_eq!(names(&sorted), vec!["a", "B"]);
    let sorted = sort_files(vec![file("Zed", 1), file("apple", 2), file("Mango", 3)]);
    assert_eq!(names(&sorted), vec!["apple", "Mango", "Zed"]);
}

#[test]
fn sorting_keeps_ties_in_listing_order() {
    let sorted = sort_files(vec![file("b", 1), file("AB", 2), file("ab", 3), file("Ab", 4), file("a", 5)]);
    assert_eq!(names(&sorted), vec!["a", "AB", "ab", "Ab", "b"]);
    let sizes: Vec<u64> = sorted.iter().map(|f| f.size).collect();
    assert_eq!(sizes, vec![5, 2, 3, 4, 1]);
}

#[test]
fn sorting_mixes_directories_and_files() {
    let sorted = sort_files(vec![file("c", 1), folder("b"), file("a", 2), folder("D")]);
    assert_eq!(names(&sorted), vec!["a", "b", "c", "D"]);
}

#[test]
fn sorting_nothing_and_one_entry() {
    assert_eq!(sort_files(Vec::new()).len(), 0);
    let one = sort_files(vec![file("only", 1)]);
    assert_eq!(names(&one), vec!["only"]);
}

#[test]
fn order_alphabetically_sorts_in_place() {
    let mut d = Dir {
        files: vec![file("b", 1), file("A", 2), file("a2", 3)],
        last_dir_path: Some(String::from("/")),
        current_path: String::from("/r"),
    };
    d.order_alphabetically();
    assert_eq!(names(&d.files), vec!["A", "a2", "b"]);
    assert_eq!(d.current_path, "/r");
    assert_eq!(d.last_dir_path, Some(String::from("/")));
    d.order_alphabetically();
    assert_eq!(names(&d.files), vec!["A", "a2", "b"]);
}

#[test]
fn get_dir_replaces_path_and_entries_together() {
    let mut d = Dir::new(String::from("/r"), Ok(vec![file("x", 1)])).unwrap();
    let done = d.get_dir(String::from("/r/sub"), Ok(vec![file("n", 1), file("M", 2)]));
    assert_eq!(done, Ok(()));
    assert_eq!(d.current_path, "/r/sub");
    assert_eq!(names(&d.files), vec!["M", "n"]);
    assert_eq!(d.last_dir_path, None);
}

#[test]
fn get_dir_leaves_everything_when_the_listing_failed() {
    let mut d = Dir::new(String::from("/r"), Ok(vec![file("x", 1)])).unwrap();
    let done = d.get_dir(String::from("/r/sub"), Err(ListError::Unreadable(Cause::NotFound)));
    assert_eq!(done, Err(ListError::Unreadable(Cause::NotFound)));
    assert_eq!(d.current_path, "/r");
    assert_eq!(names(&d.files), vec!["x"]);
    assert_eq!(d.last_dir_path, None);
}

#[test]
fn father_path_remembers_the_parent() {
    let mut d = Dir::new(String::from("/r/sub"), Ok(vec![file("x", 1)])).unwrap();
    d.father_path();
    assert_eq!(d.last_dir_path, Some(String::from("/r")));
    assert_eq!(d.current_path, "/r/sub");
    assert_eq!(names(&d.files), vec!["x"]);
}

#[test]
fn father_path_of_the_root_remembers_nothing() {
    let mut d = Dir::new(String::from("/"), Ok(Vec::new())).unwrap();
    d.last_dir_path = Some(String::from("/somewhere"));
    d.father_path();
    assert_eq!(d.last_dir_path, None);
    let mut e = Dir::new(String::new(), Ok(Vec::new())).unwrap();
    e.father_path();
    assert_eq!(e.last_dir_path, None);
}

#[test]
fn go_back_shows_the_remembered_directory() {
    let mut d = Dir::new(String::from("/r/sub"), Ok(vec![file("x", 1)])).unwrap();
    d.father_path();
    let done = d.go_back(Ok(vec![folder("sub"), file("a", 3)]));
    assert_eq!(done, Ok(()));
    assert_eq!(d.current_path, "/r");
    assert_eq!(names(&d.files), vec!["a", "sub"]);
    assert_eq!(d.last_dir_path, Some(String::from("/r")));
}

#[test]
fn go_back_without_a_remembered_directory_does_nothing() {
    let mut d = Dir::new(String::from("/r"), Ok(vec![file("x", 1)])).unwrap();
    let done = d.go_back(Ok(vec![file("other", 1)]));
    assert_eq!(done, Ok(()));
    assert_eq!(d.current_path, "/r");
    assert_eq!(names(&d.files), vec!["x"]);
}

#[test]
fn go_back_leaves_everything_when_the_listing_failed() {
    let mut d = Dir::new(String::from("/r/sub"), Ok(vec![file("x", 1)])).unwrap();
    d.father_path();
    let done = d.go_back(Err(ListError::Unreadable(Cause::PermissionDenied)));
    assert_eq!(done, Err(ListError::Unreadable(Cause::PermissionDenied)));
    assert_eq!(d.current_path, "/r/sub");
    assert_eq!(names(&d.files), vec!["x"]);
    assert_eq!(d.last_dir_path, Some(String::from("/r")));
}
