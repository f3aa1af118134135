//! From the directory and the cursor to the rows that are drawn.

use crate::dir::Dir;
use crate::entry::FileInfo;
use crate::order::is_stable_sort_of;
use crate::text::{decimal, decimal_string};
use vstd::prelude::*;
use vstd::string::*;

verus! {

/// What kind of entry a row shows; the surface picks a colour by it.
#[derive(Debug, Clone, Copy, PartialEq, Eq, Structural)]
pub enum Tag {
    Directory,
    File,
}

/// One row of the list as it is drawn.
#[derive(Debug, Clone, PartialEq, Eq)]
pub struct RenderRow {
    pub text: String,
    pub tag: Tag,
    pub highlighted: bool,
}

/// The rows of one frame under the title that the caller gave.
#[derive(Debug, Clone, PartialEq, Eq)]
pub struct Frame {
    pub title: String,
    pub rows: Vec<RenderRow>,
}

/// The directory together with the cursor over its entries.
#[derive(Debug, Clone)]
pub struct Ui {
    pub dir: Dir,
    pub idx: usize,
}

/// The text of a row: permissions, name and time of the last change,
/// separated by spaces; a file shows its size in bytes before the time.
pub open spec fn row_text(file: FileInfo) -> Seq<char> {
    if file.is_dir {
        file.permissions@ + seq![' '] + file.name@ + seq![' '] + file.last_modified@
    } else {
        file.permissions@ + seq![' '] + file.name@ + seq![' '] + decimal(file.size as nat)
            + seq![' ', 'b', 'y', 't', 'e', 's', ' '] + file.last_modified@
    }
}

/// The tag of an entry's row.
pub open spec fn tag_of(file: FileInfo) -> Tag {
    if file.is_dir {
        Tag::Directory
    } else {
        Tag::File
    }
}

/// `row` is the row of `file`, highlighted or not as `highlighted` says.
pub open spec fn row_shows(row: RenderRow, file: FileInfo, highlighted: bool) -> bool {
    &&& row.text@ == row_text(file)
    &&& row.tag == tag_of(file)
    &&& row.highlighted == highlighted
}

/// How many rows are drawn: the window starts at the cursor and holds at
/// most `height` entries.
pub open spec fn visible_rows(len: nat, idx: nat, height: nat) -> nat {
    if idx >= len {
        0
    } else if height < len - idx {
        height
    } else {
        (len - idx) as nat
    }
}

/// `rows` is the window over `files` that starts at the cursor: one row
/// for each visible entry, in order, and only the cursor's row is
/// highlighted.
pub open spec fn is_window(rows: Seq<RenderRow>, files: Seq<FileInfo>, idx: nat, height: nat) -> bool {
    &&& rows.len() == visible_rows(files.len(), idx, height)
    &&& forall|k: int| 0 <= k < rows.len() ==> row_shows(#[trigger] rows[k], files[idx + k], k == 0)
}

/// With the cursor on an entry and a screen of at least one row, the
/// window starts at the cursor's entry and does not end before it: its
/// first row is the cursor's, and that row alone is highlighted.
pub proof fn lemma_window_holds_cursor(
    rows: Seq<RenderRow>,
    files: Seq<FileInfo>,
    idx: nat,
    height: nat,
)
    requires
        is_window(rows, files, idx, height),
        idx < files.len(),
        height > 0,
    ensures
        rows.len() > 0,
        row_shows(rows[0], files[idx as int], true),
        forall|k: int| 0 < k < rows.len() ==> !(#[trigger] rows[k]).highlighted,
{
}

/// The window is determined by the entries, the cursor and the height:
/// two windows over the same arguments have the same rows.
pub proof fn lemma_window_is_determined(
    a: Seq<RenderRow>,
    b: Seq<RenderRow>,
    files: Seq<FileInfo>,
    idx: nat,
    height: nat,
)
    requires
        is_window(a, files, idx, height),
        is_window(b, files, idx, height),
    ensures
        a.len() == b.len(),
        forall|k: int|
            0 <= k < a.len() ==> (#[trigger] a[k]).text@ == b[k].text@ && a[k].tag == b[k].tag
                && a[k].highlighted == b[k].highlighted,
{
}

/// Makes the row of one entry.
pub fn render_row(file: &FileInfo, highlighted: bool) -> (row: RenderRow)
    ensures
        row_shows(row, *file, highlighted),
{
    proof {
        reveal_strlit(" ");
        reveal_strlit(" bytes ");
    }
    let mut text = file.permissions.clone();
    text.append(" ");
    text.append(file.name.as_str());
    text.append(" ");
    if !file.is_dir {
        let size = decimal_string(file.size);
        text.append(size.as_str());
        text.append(" bytes ");
    }
    text.append(file.last_modified.as_str());
    assert(text@ =~= row_text(*file));
    RenderRow { text, tag: if file.is_dir { Tag::Directory } else { Tag::File }, highlighted }
}

/// The rows of the entries that are visible when the cursor stands at
/// `idx` and the screen holds `viewport_height` rows. Nothing is changed,
/// and equal arguments give equal rows.
pub fn render(dir: &Dir, idx: usize, viewport_height: usize) -> (rows: Vec<RenderRow>)
    ensures
        is_window(rows@, dir.files@, idx as nat, viewport_height as nat),
{
    let mut rows: Vec<RenderRow> = Vec::new();
    let len: usize = dir.files.len();
    if idx >= len {
        return rows;
    }
    let count: usize = if viewport_height < len - idx {
        viewport_height
    } else {
        len - idx
    };
    let mut k: usize = 0;
    while k < count
        invariant
            len == dir.files@.len(),
            idx < len,
            k <= count <= len - idx,
            rows@.len() == k,
            forall|j: int| 0 <= j < k ==> row_shows(#[trigger] rows@[j], dir.files@[idx + j], j == 0),
        decreases count - k,
    {
        let row = render_row(&dir.files[idx + k], k == 0);
        rows.push(row);
        k = k + 1;
    }
    rows
}

impl Ui {
    /// The cursor stands on an entry, or at 0 where there is none.
    pub open spec fn cursor_in_range(&self) -> bool {
        self.idx == 0 || self.idx < self.dir.files@.len()
    }

    /// Starts on the first entry of `dir`.
    pub fn from(dir: Dir) -> (ui: Ui)
        ensures
            ui.dir == dir,
            ui.idx == 0,
            ui.cursor_in_range(),
    {
        Ui { dir, idx: 0 }
    }

    /// Puts the entries in order and gives the frame to draw: the visible
    /// rows under the title `path`.
    pub fn display(&mut self, path: &str, viewport_height: usize) -> (frame: Frame)
        ensures
            is_stable_sort_of(final(self).dir.files@, old(self).dir.files@),
            final(self).dir.current_path == old(self).dir.current_path,
            final(self).dir.last_dir_path == old(self).dir.last_dir_path,
            final(self).idx == old(self).idx,
            old(self).cursor_in_range() ==> final(self).cursor_in_range(),
            frame.title@ == path@,
            is_window(
                frame.rows@,
                final(self).dir.files@,
                old(self).idx as nat,
                viewport_height as nat,
            ),
    {
        self.dir.order_alphabetically();
        let rows = render(&self.dir, self.idx, viewport_height);
        Frame { title: path.to_owned(), rows }
    }
}

} // verus!
