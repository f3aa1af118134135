use dirbrowse::entry::{format_permissions, FileInfo};
use dirbrowse::text::{bytes_le, decimal_string, name_le};

#[test]
fn decimal_of_small_and_large_numbers() {
    assert_eq!(decimal_string(0), "0");
    assert_eq!(decimal_string(7), "7");
    assert_eq!(decimal_string(10), "10");
    assert_eq!(decimal_string(1024), "1024");
    assert_eq!(decimal_string(u64::MAX), "18446744073709551615");
}

#[test]
fn bytes_compare_by_first_difference_then_length() {
    assert!(bytes_le(b"", b""));
    assert!(bytes_le(b"", b"a"));
    assert!(!bytes_le(b"a", b""));
    assert!(bytes_le(b"a", b"a2"));
    assert!(!bytes_le(b"a2", b"a"));
    assert!(bytes_le(b"a2", b"b"));
    assert!(!bytes_le(b"b", b"a2"));
    assert!(bytes_le(b"abc", b"abc"));
}

#[test]
fn names_compare_without_regard_to_case() {
    assert!(name_le("a", "B"));
    assert!(!name_le("B", "a"));
    assert!(name_le("Alpha", "zeta"));
    assert!(name_le("ABC", "abc"));
    assert!(name_le("abc", "ABC"));
    assert!(!name_le("b", "A"));
}

#[test]
fn permissions_of_a_directory() {
    assert_eq!(format_permissions(0o755, true), "drwxr-xr-x");
}

#[test]
fn permissions_of_a_file() {
    assert_eq!(format_permissions(0o644, false), "-rw-r--r--");
    assert_eq!(format_permissions(0o100644, false), "-rw-r--r--");
}

#[test]
fn permissions_with_no_bit_and_with_every_bit() {
    assert_eq!(format_permissions(0, false), "----------");
    assert_eq!(format_permissions(0o777, false), "-rwxrwxrwx");
    assert_eq!(format_permissions(0o421, true), "dr---w---x");
    assert_eq!(format_permissions(0o124, false), "---x-w-r--");
}

#[test]
fn a_permission_string_has_ten_characters() {
    let mut mode: u32 = 0;
    while mode < 0o1000 {
        assert_eq!(format_permissions(mode, false).chars().count(), 10);
        mode += 1;
    }
}

#[test]
fn new_entry_keeps_its_fields() {
    let f = FileInfo::new(
        false,
        String::from("zeta"),
        10,
        String::from("2024-01-02 03:04:05"),
        String::from("-rw-r--r--"),
    )
    .unwrap();
    assert!(!f.is_dir);
    assert_eq!(f.name, "zeta");
    assert_eq!(f.size, 10);
    assert_eq!(f.last_modified, "2024-01-02 03:04:05");
    assert_eq!(f.permissions, "-rw-r--r--");
}

#[test]
fn new_directory_entry_has_size_zero() {
    let d = FileInfo::new(
        true,
        String::from("Alpha"),
        4096,
        String::from("2024-01-02 03:04:05"),
        String::from("drwxr-xr-x"),
    )
    .unwrap();
    assert!(d.is_dir);
    assert_eq!(d.size, 0);
}
