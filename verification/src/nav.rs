//! The commands of the browser and what each does to the cursor and the
//! directory.

use crate::dir::{path_view, Dir};
use crate::entry::FileInfo;
use crate::error::ListError;
use crate::path::{join, joined_path, parent_of};
use crate::render::Ui;
use vstd::prelude::*;

verus! {

/// What a key asks for.
#[derive(Debug, Clone, Copy, PartialEq, Eq, Structural)]
pub enum Command {
    Quit,
    MoveDown,
    MoveUp,
    Enter,
    Back,
}

/// What the event loop does after a command.
#[derive(Debug, Clone, PartialEq, Eq)]
pub enum Action {
    /// Leave the loop.
    Quit,
    /// Draw the frame again.
    Draw,
    /// List the directory at this path and hand the listing to `enter`.
    Open(String),
    /// List the directory at this path and hand the listing to `back`.
    Return(String),
}

/// The browser: the directory, the cursor, and the commands on them.
#[derive(Debug, Clone)]
pub struct App {
    pub ui: Ui,
}

/// The command of a key: `q`, `j`, `k`, `l` and `h` while the key is
/// pressed, and nothing else.
pub open spec fn command_of(key: char, pressed: bool) -> Option<Command> {
    if !pressed {
        None
    } else if key == 'q' {
        Some(Command::Quit)
    } else if key == 'j' {
        Some(Command::MoveDown)
    } else if key == 'k' {
        Some(Command::MoveUp)
    } else if key == 'l' {
        Some(Command::Enter)
    } else if key == 'h' {
        Some(Command::Back)
    } else {
        None
    }
}

/// Reads a key event.
pub fn decode_key(key: char, pressed: bool) -> (command: Option<Command>)
    ensures
        command == command_of(key, pressed),
{
    if !pressed {
        None
    } else if key == 'q' {
        Some(Command::Quit)
    } else if key == 'j' {
        Some(Command::MoveDown)
    } else if key == 'k' {
        Some(Command::MoveUp)
    } else if key == 'l' {
        Some(Command::Enter)
    } else if key == 'h' {
        Some(Command::Back)
    } else {
        None
    }
}

/// The cursor after a step down over `len` entries: one further, unless
/// it stands on the last entry or there is none.
pub open spec fn moved_down(idx: nat, len: nat) -> nat {
    if idx + 1 < len {
        idx + 1
    } else {
        idx
    }
}

/// The cursor after a step up: one back, unless it stands at 0.
pub open spec fn moved_up(idx: nat) -> nat {
    if idx > 0 {
        (idx - 1) as nat
    } else {
        idx
    }
}

/// The cursor after a sequence of commands over a listing of `len`
/// entries that does not change; only the two moves touch it.
pub open spec fn cursor_after(idx: nat, len: nat, commands: Seq<Command>) -> nat
    decreases commands.len(),
{
    if commands.len() == 0 {
        idx
    } else {
        let before = cursor_after(idx, len, commands.drop_last());
        match commands.last() {
            Command::MoveDown => moved_down(before, len),
            Command::MoveUp => moved_up(before),
            _ => before,
        }
    }
}

/// `post` is `pre` after a drill-down into the directory under the
/// cursor, whose listing is `listed`: the joined path is shown, its parent
/// is remembered, and the cursor stands at 0.
pub open spec fn entered(pre: App, listed: Seq<FileInfo>, post: App) -> bool {
    &&& pre.enter_path() matches Some(target)
    &&& post.ui.idx == 0
    &&& post.ui.dir.shows(target, listed, parent_of(target))
}

/// `post` is `pre` after a step back to the remembered directory, whose
/// listing is `listed`: that directory is shown and stays the remembered
/// one, and the cursor stands at 0.
pub open spec fn stepped_back(pre: App, listed: Seq<FileInfo>, post: App) -> bool {
    &&& path_view(pre.ui.dir.last_dir_path) matches Some(target)
    &&& post.ui.idx == 0
    &&& post.ui.dir.shows(target, listed, Some(target))
}

impl App {
    /// The path that `Enter` leads to: the current path joined with the
    /// name of the entry under the cursor, where that entry is a
    /// directory.
    pub open spec fn enter_path(&self) -> Option<Seq<char>> {
        if self.ui.idx < self.ui.dir.files@.len() && self.ui.dir.files@[self.ui.idx as int].is_dir {
            Some(
                joined_path(self.ui.dir.current_path@, self.ui.dir.files@[self.ui.idx as int].name@),
            )
        } else {
            None
        }
    }

    /// Wraps the directory and the cursor.
    pub fn from(ui: Ui) -> (app: App)
        ensures
            app.ui == ui,
    {
        App { ui }
    }

    /// Moves the cursor one entry down; on the last entry it stays.
    pub fn move_down(&mut self)
        ensures
            final(self).ui.dir == old(self).ui.dir,
            final(self).ui.idx == moved_down(
                old(self).ui.idx as nat,
                old(self).ui.dir.files@.len(),
            ),
            old(self).ui.cursor_in_range() ==> final(self).ui.cursor_in_range(),
    {
        if self.ui.idx < self.ui.dir.files.len() && self.ui.idx + 1 < self.ui.dir.files.len() {
            self.ui.idx = self.ui.idx + 1;
        }
    }

    /// Moves the cursor one entry up; at 0 it stays.
    pub fn move_up(&mut self)
        ensures
            final(self).ui.dir == old(self).ui.dir,
            final(self).ui.idx == moved_up(old(self).ui.idx as nat),
            old(self).ui.cursor_in_range() ==> final(self).ui.cursor_in_range(),
    {
        if self.ui.idx > 0 {
            self.ui.idx = self.ui.idx - 1;
        }
    }

    /// The path to list for `Enter`, if the entry under the cursor is a
    /// directory.
    pub fn enter_target(&self) -> (target: Option<String>)
        ensures
            path_view(target) == self.enter_path(),
    {
        if self.ui.idx < self.ui.dir.files.len() {
            let file = &self.ui.dir.files[self.ui.idx];
            if file.is_dir {
                return Some(join(self.ui.dir.current_path.as_str(), file.name.as_str()));
            }
        }
        None
    }

    /// The path to list for `Back`, if a directory is remembered.
    pub fn back_target(&self) -> (target: Option<String>)
        ensures
            target == self.ui.dir.last_dir_path,
    {
        match &self.ui.dir.last_dir_path {
            Some(p) => Some(p.clone()),
            None => None,
        }
    }

    /// Drills down into the directory under the cursor, whose listing is
    /// `listing`. Where the cursor stands on a file or on nothing, nothing
    /// changes. Where the listing failed, nothing changes and the error is
    /// returned.
    pub fn enter(&mut self, listing: Result<Vec<FileInfo>, ListError>) -> (done: Result<
        (),
        ListError,
    >)
        ensures
            match (old(self).enter_path(), listing) {
                (Some(_), Ok(files)) => done is Ok && entered(*old(self), files@, *final(self)),
                (Some(_), Err(e)) => done == Err::<(), ListError>(e) && *final(self) == *old(self),
                (None, _) => done is Ok && *final(self) == *old(self),
            },
            old(self).ui.cursor_in_range() ==> final(self).ui.cursor_in_range(),
    {
        let target = match self.enter_target() {
            Some(t) => t,
            None => {
                return Ok(());
            },
        };
        let done = self.ui.dir.get_dir(target, listing);
        if done.is_ok() {
            self.ui.dir.father_path();
            self.ui.idx = 0;
        }
        done
    }

    /// Steps back to the remembered directory, whose listing is
    /// `listing`. Where none is remembered, or `is_directory` says that
    /// it is no directory any more, nothing changes. Where the listing
    /// failed, nothing changes and the error is returned.
    pub fn back(&mut self, is_directory: bool, listing: Result<Vec<FileInfo>, ListError>) -> (done:
        Result<(), ListError>)
        ensures
            match (path_view(old(self).ui.dir.last_dir_path), listing) {
                (Some(_), Ok(files)) if is_directory => done is Ok && stepped_back(
                    *old(self),
                    files@,
                    *final(self),
                ),
                (Some(_), Err(e)) if is_directory => done == Err::<(), ListError>(e) && *final(self)
                    == *old(self),
                _ => done is Ok && *final(self) == *old(self),
            },
            old(self).ui.cursor_in_range() ==> final(self).ui.cursor_in_range(),
    {
        if !is_directory || self.ui.dir.last_dir_path.is_none() {
            return Ok(());
        }
        let done = self.ui.dir.go_back(listing);
        if done.is_ok() {
            self.ui.idx = 0;
        }
        done
    }

    /// Takes one command. The two moves are carried out at once. `Enter`
    /// and `Back` change nothing yet: they name the directory to list,
    /// where there is one, and `enter` or `back` finishes the step with
    /// the listing.
    pub fn apply(&mut self, command: Command) -> (action: Action)
        ensures
            match command {
                Command::Quit => action == Action::Quit && *final(self) == *old(self),
                Command::MoveDown => action == Action::Draw && final(self).ui.dir == old(
                    self,
                ).ui.dir && final(self).ui.idx == moved_down(
                    old(self).ui.idx as nat,
                    old(self).ui.dir.files@.len(),
                ),
                Command::MoveUp => action == Action::Draw && final(self).ui.dir == old(self).ui.dir
                    && final(self).ui.idx == moved_up(old(self).ui.idx as nat),
                Command::Enter => *final(self) == *old(self) && match old(self).enter_path() {
                    Some(target) => action matches Action::Open(path) && path@ == target,
                    None => action == Action::Draw,
                },
                Command::Back => *final(self) == *old(self) && match old(self).ui.dir.last_dir_path {
                    Some(target) => action == Action::Return(target),
                    None => action == Action::Draw,
                },
            },
            old(self).ui.cursor_in_range() ==> final(self).ui.cursor_in_range(),
    {
        match command {
            Command::Quit => Action::Quit,
            Command::MoveDown => {
                self.move_down();
                Action::Draw
            },
            Command::MoveUp => {
                self.move_up();
                Action::Draw
            },
            Command::Enter => match self.enter_target() {
                Some(path) => Action::Open(path),
                None => Action::Draw,
            },
            Command::Back => match self.back_target() {
                Some(path) => Action::Return(path),
                None => Action::Draw,
            },
        }
    }
}

/// Moves never take the cursor off the listing: from a cursor on an entry
/// (or at 0), every sequence of steps down and up leaves it on an entry
/// (or at 0), so never past the last entry and never below 0.
pub proof fn lemma_moves_keep_cursor_in_range(idx: nat, len: nat, commands: Seq<Command>)
    requires
        idx == 0 || idx < len,
    ensures
        cursor_after(idx, len, commands) == 0 || cursor_after(idx, len, commands) < len,
    decreases commands.len(),
{
    if commands.len() > 0 {
        lemma_moves_keep_cursor_in_range(idx, len, commands.drop_last());
    }
}

/// After `Enter` the cursor stands at 0 and the joined path is shown. A
/// `Back` after it shows the parent of that path, and one more `Back`
/// shows the same directory again: it does not climb further.
pub proof fn lemma_back_returns_one_level(
    start: App,
    listed: Seq<FileInfo>,
    inside: App,
    relisted: Seq<FileInfo>,
    out: App,
    again: Seq<FileInfo>,
    last: App,
)
    requires
        entered(start, listed, inside),
        stepped_back(inside, relisted, out),
        stepped_back(out, again, last),
    ensures
        inside.ui.idx == 0,
        start.enter_path() == Some(inside.ui.dir.current_path@),
        parent_of(inside.ui.dir.current_path@) == Some(out.ui.dir.current_path@),
        out.ui.idx == 0,
        last.ui.dir.current_path@ == out.ui.dir.current_path@,
{
}

} // verus!
