//! From what the file system says of a directory's children to the
//! entries of its listing.

use crate::entry::{format_permissions, permission_chars, FileInfo};
use crate::error::{Cause, ListError};
use vstd::prelude::*;

verus! {

/// What the file system says of one child of a directory. The time of the
/// last change is counted from 1970-01-01 00:00:00 UTC; `utc_offset` is
/// the number of seconds that local time is ahead of UTC at that time.
#[derive(Debug, Clone)]
pub struct RawEntry {
    pub is_dir: bool,
    pub name: String,
    pub len: u64,
    pub mode: u32,
    pub modified_secs: i64,
    pub modified_nanos: u32,
    pub utc_offset: i32,
}

/// The local date and time of an instant, written as
/// `%Y-%m-%d %H:%M:%S` by chrono; `None` where chrono cannot represent
/// the instant or the offset.
pub uninterp spec fn timestamp_text(secs: i64, nanos: u32, utc_offset: i32) -> Option<Seq<char>>;

/// Calls chrono: `FixedOffset::east_opt` and `DateTime::from_timestamp`
/// make the zone and the instant, and `DateTime::format` writes the
/// instant in that zone. Trusted: the result depends on the three
/// numbers alone, and is what the contracts call `timestamp_text`.
#[verifier::external_body]
pub(crate) fn format_timestamp(secs: i64, nanos: u32, utc_offset: i32) -> (text: Option<String>)
    ensures
        match text {
            Some(t) => timestamp_text(secs, nanos, utc_offset) == Some(t@),
            None => timestamp_text(secs, nanos, utc_offset) is None,
        },
{
    let zone = chrono::FixedOffset::east_opt(utc_offset)?;
    let instant = chrono::DateTime::from_timestamp(secs, nanos)?;
    Some(instant.with_timezone(&zone).format("%Y-%m-%d %H:%M:%S").to_string())
}

/// `file` is the entry of `raw`: same kind and name, size 0 for a
/// directory, the permission string of the mode bits, and the time of the
/// last change as text.
pub open spec fn describes(file: FileInfo, raw: RawEntry) -> bool {
    &&& file.is_dir == raw.is_dir
    &&& file.name@ == raw.name@
    &&& file.size == (if raw.is_dir { 0 } else { raw.len })
    &&& file.permissions@ == permission_chars(raw.mode, raw.is_dir)
    &&& timestamp_text(raw.modified_secs, raw.modified_nanos, raw.utc_offset) == Some(
        file.last_modified@,
    )
}

/// A child gets an entry when its metadata was read and its time can be
/// written.
pub open spec fn is_usable(child: Option<RawEntry>) -> bool {
    match child {
        Some(raw) => timestamp_text(raw.modified_secs, raw.modified_nanos, raw.utc_offset) is Some,
        None => false,
    }
}

/// `files` holds one entry for each usable child, in the children's
/// order; the other children are left out.
pub open spec fn is_listing_of(files: Seq<FileInfo>, children: Seq<Option<RawEntry>>) -> bool
    decreases children.len(),
{
    if children.len() == 0 {
        files.len() == 0
    } else if is_usable(children.last()) {
        &&& files.len() > 0
        &&& describes(files.last(), children.last().unwrap())
        &&& is_listing_of(files.drop_last(), children.drop_last())
    } else {
        is_listing_of(files, children.drop_last())
    }
}

/// Makes the entry of one child; `None` where its time cannot be written.
pub fn describe(raw: &RawEntry) -> (made: Option<FileInfo>)
    ensures
        match made {
            Some(file) => describes(file, *raw),
            None => !is_usable(Some(*raw)),
        },
{
    let last_modified = match format_timestamp(raw.modified_secs, raw.modified_nanos, raw.utc_offset) {
        Some(text) => text,
        None => {
            return None;
        },
    };
    let permissions = format_permissions(raw.mode, raw.is_dir);
    Some(
        FileInfo {
            is_dir: raw.is_dir,
            name: raw.name.clone(),
            size: if raw.is_dir { 0 } else { raw.len },
            permissions,
            last_modified,
        },
    )
}

/// Turns what was read of a directory into its listing. A directory that
/// could not be read is `Unreadable`, with the cause. A child whose
/// metadata could not be read (`None`) or whose time cannot be written is
/// left out, and the listing succeeds with the others.
pub fn return_dir_vec(read: Result<Vec<Option<RawEntry>>, Cause>) -> (listing: Result<
    Vec<FileInfo>,
    ListError,
>)
    ensures
        match read {
            Ok(children) => listing matches Ok(files) && is_listing_of(files@, children@),
            Err(cause) => listing == Err::<Vec<FileInfo>, ListError>(ListError::Unreadable(cause)),
        },
{
    let children = match read {
        Ok(children) => children,
        Err(cause) => {
            return Err(ListError::Unreadable(cause));
        },
    };
    let mut files: Vec<FileInfo> = Vec::new();
    let mut i: usize = 0;
    while i < children.len()
        invariant
            i <= children@.len(),
            is_listing_of(files@, children@.take(i as int)),
        decreases children@.len() - i,
    {
        let ghost before = files@;
        let made = match &children[i] {
            Some(raw) => describe(raw),
            None => None,
        };
        if let Some(file) = made {
            files.push(file);
        }
        proof {
            let next = children@.take(i + 1);
            assert(next.drop_last() =~= children@.take(i as int));
            assert(next.last() == children@[i as int]);
            if is_usable(next.last()) {
                assert(files@.drop_last() =~= before);
            }
        }
        i = i + 1;
    }
    proof {
        assert(children@.take(i as int) =~= children@);
    }
    Ok(files)
}

} // verus!
