//! One entry of a directory listing.

use vstd::prelude::*;
use vstd::string::*;

verus! {

/// `std::io::Error`, declared so that it can stand in a signature. Nothing
/// is claimed of its contents.
#[verifier::external_type_specification]
#[verifier::external_body]
pub struct ExIoError(std::io::Error);

/// A file or a directory inside a listed directory, with the metadata that
/// is shown for it.
#[derive(Debug, Clone, PartialEq, Eq, PartialOrd, Ord)]
pub struct FileInfo {
    pub is_dir: bool,
    pub name: String,
    pub size: u64,
    pub permissions: String,
    pub last_modified: String,
}

/// The letter shown for one permission bit: `shown` where the bit is set,
/// a dash where it is not.
pub open spec fn flag_char(mode: u32, bit: u32, shown: char) -> char {
    if mode & bit != 0 {
        shown
    } else {
        '-'
    }
}

/// The ten characters of a permission string: the type character, then
/// read, write and execute for the owner, the group and the others.
pub open spec fn permission_chars(mode: u32, is_directory: bool) -> Seq<char> {
    seq![
        if is_directory { 'd' } else { '-' },
        flag_char(mode, 0o400, 'r'),
        flag_char(mode, 0o200, 'w'),
        flag_char(mode, 0o100, 'x'),
        flag_char(mode, 0o040, 'r'),
        flag_char(mode, 0o020, 'w'),
        flag_char(mode, 0o010, 'x'),
        flag_char(mode, 0o004, 'r'),
        flag_char(mode, 0o002, 'w'),
        flag_char(mode, 0o001, 'x'),
    ]
}

fn flag_str(mode: u32, bit: u32, shown: &'static str) -> (s: &'static str)
    ensures
        s@ == (if mode & bit != 0 { shown@ } else { "-"@ }),
{
    if mode & bit != 0 {
        shown
    } else {
        "-"
    }
}

/// Writes the mode bits of an entry as a permission string.
pub fn format_permissions(mode: u32, is_directory: bool) -> (s: String)
    ensures
        s@ == permission_chars(mode, is_directory),
        s@.len() == 10,
{
    proof {
        reveal_strlit("d");
        reveal_strlit("-");
        reveal_strlit("r");
        reveal_strlit("w");
        reveal_strlit("x");
    }
    let mut s = String::new();
    s.append(if is_directory { "d" } else { "-" });
    s.append(flag_str(mode, 0o400, "r"));
    s.append(flag_str(mode, 0o200, "w"));
    s.append(flag_str(mode, 0o100, "x"));
    s.append(flag_str(mode, 0o040, "r"));
    s.append(flag_str(mode, 0o020, "w"));
    s.append(flag_str(mode, 0o010, "x"));
    s.append(flag_str(mode, 0o004, "r"));
    s.append(flag_str(mode, 0o002, "w"));
    s.append(flag_str(mode, 0o001, "x"));
    assert(s@ =~= permission_chars(mode, is_directory));
    s
}

impl FileInfo {
    /// Makes an entry. A directory's size is recorded as 0, whatever
    /// `size` says.
    pub fn new(
        is_dir: bool,
        name: String,
        size: u64,
        last_modified: String,
        permissions: String,
    ) -> (made: Result<Self, std::io::Error>)
        ensures
            made == Ok::<Self, std::io::Error>(
                (FileInfo {
                    is_dir,
                    name,
                    size: if is_dir { 0 } else { size },
                    permissions,
                    last_modified,
                }),
            ),
    {
        Ok(FileInfo { is_dir, name, size: if is_dir { 0 } else { size }, permissions, last_modified })
    }
}

} // verus!
