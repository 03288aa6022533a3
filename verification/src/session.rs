//! Session state: the ordered bookmark list, the selection cursor, and the
//! input mode, together with the commands that mutate them.

use vstd::prelude::*;
use crate::bookmark::{Bookmark, BookmarkView, auto_name, contains_path, count_path, has_path, lemma_count_path_push, lemma_count_path_zero, list_view, spec_auto_name};

verus! {

/// The input mode of the session. `ConfirmingDelete` is the only modal input
/// state: it is entered by a delete request and left by a yes/no answer.
#[derive(Clone, Copy, PartialEq, Eq, Debug)]
pub enum InputMode {
    Normal,
    ConfirmingDelete,
}

/// A command produced by the input handler from one key press.
#[derive(Clone, Copy, PartialEq, Eq, Debug)]
pub enum Command {
    MoveUp,
    MoveDown,
    AddCurrent,
    RequestDelete,
    ConfirmYes,
    ConfirmNo,
    Select,
    Quit,
    Noop,
}

/// What the event loop must do after a command has been applied.
pub enum Action {
    /// Keep looping.
    Continue,
    /// The list changed: persist it, then keep looping.
    Persist,
    /// Write this path to standard output and end the session.
    Emit(String),
    /// End the session without output.
    Quit,
}

/// Mathematical content of a session: bookmark views, cursor, input mode.
pub struct SessionView {
    pub bookmarks: Seq<BookmarkView>,
    pub selected: int,
    pub mode: InputMode,
}

/// In-memory session state, owned by the event loop for the process lifetime.
pub struct Session {
    pub bookmarks: Vec<Bookmark>,
    pub selected: usize,
    pub mode: InputMode,
}

impl View for Session {
    type V = SessionView;

    open spec fn view(&self) -> SessionView {
        SessionView {
            bookmarks: list_view(self.bookmarks@),
            selected: self.selected as int,
            mode: self.mode,
        }
    }
}

/// The session invariant: the cursor is a valid index whenever the list is
/// non-empty (and pinned to zero when it is empty), and the confirmation mode
/// is only ever active over a non-empty list.
pub open spec fn wf(s: SessionView) -> bool {
    &&& if s.bookmarks.len() == 0 {
            s.selected == 0
        } else {
            0 <= s.selected < s.bookmarks.len()
        }
    &&& s.mode is ConfirmingDelete ==> s.bookmarks.len() > 0
}

/// Cursor one step down, clamped to the last entry; no-op on an empty list.
pub open spec fn spec_move_down(s: SessionView) -> SessionView {
    SessionView {
        selected: if s.selected + 1 < s.bookmarks.len() { s.selected + 1 } else { s.selected },
        ..s
    }
}

/// Cursor one step up, clamped to the first entry.
pub open spec fn spec_move_up(s: SessionView) -> SessionView {
    SessionView {
        selected: if s.selected > 0 { s.selected - 1 } else { 0 },
        ..s
    }
}

/// Adding the working directory `path`: a silent no-op when some bookmark
/// already has that path, otherwise an appended entry with an auto-generated
/// name and the cursor on the new last entry.
pub open spec fn spec_add(s: SessionView, path: Seq<char>) -> SessionView {
    if has_path(s.bookmarks, path) {
        s
    } else {
        SessionView {
            bookmarks: s.bookmarks.push(
                BookmarkView { name: spec_auto_name(s.bookmarks.len() + 1), path },
            ),
            selected: s.bookmarks.len() as int,
            mode: s.mode,
        }
    }
}

/// A delete request enters confirmation mode over a non-empty list and is a
/// no-op otherwise.
pub open spec fn spec_request_delete(s: SessionView) -> SessionView {
    if s.bookmarks.len() > 0 {
        SessionView { mode: InputMode::ConfirmingDelete, ..s }
    } else {
        s
    }
}

/// Resolving the confirmation: `yes` removes the selected entry and moves the
/// cursor back by one when it would otherwise fall off the shortened list;
/// `no` only leaves confirmation mode.
pub open spec fn spec_confirm(s: SessionView, yes: bool) -> SessionView {
    if yes {
        let shorter = s.bookmarks.remove(s.selected);
        SessionView {
            bookmarks: shorter,
            selected: if s.selected >= shorter.len() && s.selected > 0 {
                s.selected - 1
            } else {
                s.selected
            },
            mode: InputMode::Normal,
        }
    } else {
        SessionView { mode: InputMode::Normal, ..s }
    }
}

impl Session {
    /// A fresh session over a loaded list: cursor on the first entry, normal
    /// input mode.
    pub fn new(bookmarks: Vec<Bookmark>) -> (s: Session)
        ensures
            s@.bookmarks == list_view(bookmarks@),
            s@.selected == 0,
            s@.mode is Normal,
            wf(s@),
    {
        Session { bookmarks, selected: 0, mode: InputMode::Normal }
    }

    /// Move the cursor one entry down, never past the last entry.
    pub fn move_down(&mut self)
        requires
            wf(old(self)@),
        ensures
            final(self)@ == spec_move_down(old(self)@),
            wf(final(self)@),
    {
        if self.selected < self.bookmarks.len() && self.bookmarks.len() - self.selected > 1 {
            self.selected = self.selected + 1;
        }
    }

    /// Move the cursor one entry up, never past the first entry.
    pub fn move_up(&mut self)
        requires
            wf(old(self)@),
        ensures
            final(self)@ == spec_move_up(old(self)@),
            wf(final(self)@),
    {
        if self.selected > 0 {
            self.selected = self.selected - 1;
        }
    }

    /// Add the working directory `path` as a new bookmark: a silent no-op if
    /// a bookmark with that exact path already exists, otherwise an appended
    /// entry named after the new count, with the cursor moved onto it. The
    /// result says whether the list changed (and so needs persisting).
    pub fn add_current(&mut self, path: String) -> (added: bool)
        requires
            wf(old(self)@),
            old(self)@.bookmarks.len() < usize::MAX,
        ensures
            final(self)@ == spec_add(old(self)@, path@),
            added == !has_path(old(self)@.bookmarks, path@),
            wf(final(self)@),
    {
        if contains_path(&self.bookmarks, &path) {
            false
        } else {
            let name = auto_name(self.bookmarks.len() + 1);
            self.bookmarks.push(Bookmark { name, path });
            self.selected = self.bookmarks.len() - 1;
            assert(list_view(self.bookmarks@) =~= spec_add(old(self)@, path@).bookmarks);
            true
        }
    }

    /// Ask to delete the selected entry: enters confirmation mode when the
    /// list is non-empty, does nothing otherwise.
    pub fn request_delete(&mut self)
        requires
            wf(old(self)@),
        ensures
            final(self)@ == spec_request_delete(old(self)@),
            wf(final(self)@),
    {
        if self.bookmarks.len() > 0 {
            self.mode = InputMode::ConfirmingDelete;
        }
    }

    /// Resolve the pending delete confirmation. On `yes` the selected entry
    /// is removed and the cursor stays valid, preferring the new last entry;
    /// on `no` the list and the cursor are untouched. Either way the session
    /// returns to normal input mode.
    pub fn confirm_delete(&mut self, yes: bool)
        requires
            wf(old(self)@),
            old(self)@.mode is ConfirmingDelete,
        ensures
            final(self)@ == spec_confirm(old(self)@, yes),
            wf(final(self)@),
    {
        self.mode = InputMode::Normal;
        if yes {
            self.bookmarks.remove(self.selected);
            assert(list_view(self.bookmarks@) =~= spec_confirm(old(self)@, true).bookmarks);
            if self.selected >= self.bookmarks.len() && self.selected > 0 {
                self.selected = self.selected - 1;
            }
        }
    }

    /// The selected bookmark's path, to be emitted on standard output; `None`
    /// exactly when the list is empty.
    pub fn select_current(&self) -> (r: Option<String>)
        requires
            wf(self@),
        ensures
            match r {
                Some(p) => self@.bookmarks.len() > 0 && p@ == self@.bookmarks[self@.selected].path,
                None => self@.bookmarks.len() == 0,
            },
    {
        if self.bookmarks.len() > 0 {
            Some(self.bookmarks[self.selected].path.clone())
        } else {
            None
        }
    }

    /// Apply one command. `cwd` is the process's current working directory,
    /// read by the caller, and is only consulted by `AddCurrent` (a missing
    /// working directory makes the addition a no-op, as the original key
    /// handling did). The returned action tells the event loop whether to
    /// persist the list, emit a path and stop, stop silently, or go on.
    pub fn apply(&mut self, cmd: Command, cwd: Option<String>) -> (act: Action)
        requires
            wf(old(self)@),
            cmd is ConfirmYes || cmd is ConfirmNo ==> old(self)@.mode is ConfirmingDelete,
            cmd is AddCurrent ==> old(self)@.bookmarks.len() < usize::MAX,
        ensures
            wf(final(self)@),
            match cmd {
                Command::MoveDown => final(self)@ == spec_move_down(old(self)@) && act is Continue,
                Command::MoveUp => final(self)@ == spec_move_up(old(self)@) && act is Continue,
                Command::AddCurrent => match cwd {
                    Some(p) => final(self)@ == spec_add(old(self)@, p@)
                        && (act is Persist <==> !has_path(old(self)@.bookmarks, p@))
                        && (act is Persist || act is Continue),
                    None => final(self)@ == old(self)@ && act is Continue,
                },
                Command::RequestDelete => final(self)@ == spec_request_delete(old(self)@)
                    && act is Continue,
                Command::ConfirmYes => final(self)@ == spec_confirm(old(self)@, true)
                    && act is Persist,
                Command::ConfirmNo => final(self)@ == spec_confirm(old(self)@, false)
                    && act is Continue,
                Command::Select => final(self)@ == old(self)@
                    && if old(self)@.bookmarks.len() > 0 {
                        act matches Action::Emit(p)
                            && p@ == old(self)@.bookmarks[old(self)@.selected].path
                    } else {
                        act is Continue
                    },
                Command::Quit => final(self)@ == old(self)@ && act is Quit,
                Command::Noop => final(self)@ == old(self)@ && act is Continue,
            },
    {
        match cmd {
            Command::MoveDown => {
                self.move_down();
                Action::Continue
            },
            Command::MoveUp => {
                self.move_up();
                Action::Continue
            },
            Command::AddCurrent => {
                match cwd {
                    Some(p) => {
                        if self.add_current(p) {
                            Action::Persist
                        } else {
                            Action::Continue
                        }
                    },
                    None => Action::Continue,
                }
            },
            Command::RequestDelete => {
                self.request_delete();
                Action::Continue
            },
            Command::ConfirmYes => {
                self.confirm_delete(true);
                Action::Persist
            },
            Command::ConfirmNo => {
                self.confirm_delete(false);
                Action::Continue
            },
            Command::Select => {
                match self.select_current() {
                    Some(p) => Action::Emit(p),
                    None => Action::Continue,
                }
            },
            Command::Quit => Action::Quit,
            Command::Noop => Action::Continue,
        }
    }
}

/// A sequence of cursor moves: `true` moves down, `false` moves up.
pub open spec fn apply_moves(s: SessionView, moves: Seq<bool>) -> SessionView
    decreases moves.len(),
{
    if moves.len() == 0 {
        s
    } else {
        let stepped = if moves[0] { spec_move_down(s) } else { spec_move_up(s) };
        apply_moves(stepped, moves.drop_first())
    }
}

/// Any sequence of cursor moves leaves the bookmark list and the input mode
/// untouched and keeps the cursor inside `[0, len - 1]` whenever the list is
/// non-empty.
pub proof fn lemma_moves_stay_in_range(s: SessionView, moves: Seq<bool>)
    requires
        wf(s),
    ensures
        wf(apply_moves(s, moves)),
        apply_moves(s, moves).bookmarks == s.bookmarks,
        apply_moves(s, moves).mode == s.mode,
        s.bookmarks.len() > 0 ==> 0 <= apply_moves(s, moves).selected < s.bookmarks.len(),
    decreases moves.len(),
{
    if moves.len() > 0 {
        let stepped = if moves[0] { spec_move_down(s) } else { spec_move_up(s) };
        lemma_moves_stay_in_range(stepped, moves.drop_first());
    }
}

/// The clamp itself: a move up from the first entry and a move down from the
/// last entry stay put — the cursor never wraps past either end.
pub proof fn lemma_moves_never_wrap(s: SessionView)
    requires
        wf(s),
        s.bookmarks.len() > 0,
    ensures
        s.selected == 0 ==> spec_move_up(s) == s,
        s.selected == s.bookmarks.len() - 1 ==> spec_move_down(s) == s,
{
}

/// Adding the same working directory twice in succession yields a list with
/// exactly one entry for that path, and the second addition changes nothing
/// at all. (The bound on the starting count only rules out a list that
/// already held the same path twice, which no sequence of additions builds.)
pub proof fn lemma_add_idempotent(s: SessionView, path: Seq<char>)
    requires
        wf(s),
        count_path(s.bookmarks, path) <= 1,
    ensures
        spec_add(spec_add(s, path), path) == spec_add(s, path),
        count_path(spec_add(s, path).bookmarks, path) == 1,
{
    lemma_count_path_zero(s.bookmarks, path);
    let s1 = spec_add(s, path);
    if !has_path(s.bookmarks, path) {
        let b = BookmarkView { name: spec_auto_name(s.bookmarks.len() + 1), path };
        lemma_count_path_push(s.bookmarks, b, path);
        assert(s1.bookmarks[s.bookmarks.len() as int].path == path);
        assert(has_path(s1.bookmarks, path));
    }
    lemma_count_path_zero(s1.bookmarks, path);
}

/// Requesting a delete and answering no leaves the bookmarks, the cursor and
/// the mode exactly as they were before the request.
pub proof fn lemma_cancel_delete_restores(s: SessionView)
    requires
        wf(s),
        s.mode is Normal,
    ensures
        spec_confirm(spec_request_delete(s), false) == s,
{
}

/// A confirmed delete removes exactly one entry and leaves the cursor valid:
/// it moves back by one exactly when it pointed at the removed last entry of
/// a list that stays non-empty, and stays put otherwise.
pub proof fn lemma_confirm_delete_shrinks(s: SessionView)
    requires
        wf(s),
        s.mode is ConfirmingDelete,
    ensures
        spec_confirm(s, true).bookmarks.len() == s.bookmarks.len() - 1,
        wf(spec_confirm(s, true)),
        s.selected == s.bookmarks.len() - 1 && s.bookmarks.len() > 1
            ==> spec_confirm(s, true).selected == s.selected - 1,
        s.selected < s.bookmarks.len() - 1 ==> spec_confirm(s, true).selected == s.selected,
{
}

} // verus!
