//! The state of the directory that is shown.

use crate::entry::FileInfo;
use crate::error::ListError;
use crate::order::{is_sorted, is_stable_sort_of, sort_files};
use crate::path::{parent, parent_of};
use vstd::prelude::*;

verus! {

/// The directory that is shown: its path, its entries in order, and the
/// one directory that a step back returns to.
#[derive(Debug, Clone)]
pub struct Dir {
    pub files: Vec<FileInfo>,
    pub last_dir_path: Option<String>,
    pub current_path: String,
}

/// The path inside an optional string.
pub open spec fn path_view(path: Option<String>) -> Option<Seq<char>> {
    match path {
        Some(p) => Some(p@),
        None => None,
    }
}

impl Dir {
    /// The entries stand in order.
    pub open spec fn is_ordered(&self) -> bool {
        is_sorted(self.files@)
    }

    /// `self` shows the directory at `path` with the entries of `listed`
    /// in order, and remembers what `last` holds.
    pub open spec fn shows(&self, path: Seq<char>, listed: Seq<FileInfo>, last: Option<Seq<char>>) -> bool {
        &&& self.current_path@ == path
        &&& is_stable_sort_of(self.files@, listed)
        &&& path_view(self.last_dir_path) == last
    }

    /// Starts in the working directory, whose listing is `listing`. A
    /// listing that failed is passed on, and no state is made.
    pub fn new(working_dir: String, listing: Result<Vec<FileInfo>, ListError>) -> (made: Result<
        Dir,
        ListError,
    >)
        ensures
            match listing {
                Ok(files) => made matches Ok(dir) && dir.shows(working_dir@, files@, None),
                Err(e) => made == Err::<Dir, ListError>(e),
            },
    {
        match listing {
            Ok(files) => Ok(
                Dir { files: sort_files(files), last_dir_path: None, current_path: working_dir },
            ),
            Err(e) => Err(e),
        }
    }

    /// Starts in the directory at `path`, whose listing is `listing`.
    /// Where `is_directory` says that no directory stands at `path`, the
    /// path is refused; a listing that failed is passed on.
    pub fn from(path: String, is_directory: bool, listing: Result<Vec<FileInfo>, ListError>) -> (made:
        Result<Dir, ListError>)
        ensures
            !is_directory ==> made == Err::<Dir, ListError>(ListError::InvalidStartupPath),
            is_directory ==> match listing {
                Ok(files) => made matches Ok(dir) && dir.shows(path@, files@, None),
                Err(e) => made == Err::<Dir, ListError>(e),
            },
    {
        if !is_directory {
            return Err(ListError::InvalidStartupPath);
        }
        Dir::new(path, listing)
    }

    /// Moves to the directory at `path`, whose listing is `listing`: path
    /// and entries change together. Where the listing failed nothing
    /// changes, and the error is returned.
    pub fn get_dir(&mut self, path: String, listing: Result<Vec<FileInfo>, ListError>) -> (done:
        Result<(), ListError>)
        ensures
            match listing {
                Ok(files) => done is Ok && final(self).shows(
                    path@,
                    files@,
                    path_view(old(self).last_dir_path),
                ),
                Err(e) => done == Err::<(), ListError>(e) && *final(self) == *old(self),
            },
    {
        match listing {
            Ok(files) => {
                self.files = sort_files(files);
                self.current_path = path;
                Ok(())
            },
            Err(e) => Err(e),
        }
    }

    /// Remembers the parent of the current path as the directory to step
    /// back to; nothing is remembered where the path has no parent.
    pub fn father_path(&mut self)
        ensures
            final(self).files == old(self).files,
            final(self).current_path == old(self).current_path,
            path_view(final(self).last_dir_path) == parent_of(old(self).current_path@),
    {
        self.last_dir_path = parent(self.current_path.as_str());
    }

    /// Puts the entries in order: by lowercase name, entries whose
    /// lowercase names are equal staying as they were listed.
    pub fn order_alphabetically(&mut self)
        ensures
            is_stable_sort_of(final(self).files@, old(self).files@),
            final(self).is_ordered(),
            final(self).current_path == old(self).current_path,
            final(self).last_dir_path == old(self).last_dir_path,
    {
        let mut files: Vec<FileInfo> = Vec::new();
        std::mem::swap(&mut self.files, &mut files);
        self.files = sort_files(files);
    }

    /// Steps back to the remembered directory, whose listing is
    /// `listing`. Nothing changes where no directory is remembered, or
    /// where the listing failed; only the latter is an error.
    pub fn go_back(&mut self, listing: Result<Vec<FileInfo>, ListError>) -> (done: Result<
        (),
        ListError,
    >)
        ensures
            match (path_view(old(self).last_dir_path), listing) {
                (Some(target), Ok(files)) => done is Ok && final(self).shows(
                    target,
                    files@,
                    Some(target),
                ),
                (Some(_), Err(e)) => done == Err::<(), ListError>(e) && *final(self) == *old(self),
                (None, _) => done is Ok && *final(self) == *old(self),
            },
    {
        let target = match &self.last_dir_path {
            Some(p) => p.clone(),
            None => {
                return Ok(());
            },
        };
        self.get_dir(target, listing)
    }
}

} // verus!
