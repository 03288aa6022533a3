//! The input handler: a fixed table from one discrete key press to one
//! command, with a separate column for confirmation mode.

use vstd::prelude::*;
use crate::bookmark::has_path;
use crate::session::{Action, Command, InputMode, Session, SessionView, spec_add, spec_confirm, spec_move_down, spec_move_up, spec_request_delete, wf};

verus! {

/// A key event, already stripped of everything the table does not read.
#[derive(Clone, Copy, PartialEq, Eq, Debug)]
pub enum Key {
    Char(char),
    Up,
    Down,
    Enter,
    Other,
}

/// The key table. Release and repeat events (`press == false`) map to no-op,
/// so holding a key cannot trigger a command twice. While a delete
/// confirmation is pending only `y`/`Y`/`n`/`N` are recognized; every other
/// key, `q` included, is suppressed until the confirmation resolves.
pub open spec fn spec_map_key(mode: InputMode, key: Key, press: bool) -> Command {
    if !press {
        Command::Noop
    } else {
        match mode {
            InputMode::Normal => match key {
                Key::Char(c) => if c == 'q' {
                    Command::Quit
                } else if c == 'j' {
                    Command::MoveDown
                } else if c == 'k' {
                    Command::MoveUp
                } else if c == 'u' {
                    Command::AddCurrent
                } else if c == '!' {
                    Command::RequestDelete
                } else {
                    Command::Noop
                },
                Key::Down => Command::MoveDown,
                Key::Up => Command::MoveUp,
                Key::Enter => Command::Select,
                Key::Other => Command::Noop,
            },
            InputMode::ConfirmingDelete => match key {
                Key::Char(c) => if c == 'y' || c == 'Y' {
                    Command::ConfirmYes
                } else if c == 'n' || c == 'N' {
                    Command::ConfirmNo
                } else {
                    Command::Noop
                },
                _ => Command::Noop,
            },
        }
    }
}

/// Map one key event to the command the table gives it.
pub fn map_key(mode: InputMode, key: Key, press: bool) -> (cmd: Command)
    ensures
        cmd == spec_map_key(mode, key, press),
{
    if !press {
        return Command::Noop;
    }
    match mode {
        InputMode::Normal => match key {
            Key::Char(c) => if c == 'q' {
                Command::Quit
            } else if c == 'j' {
                Command::MoveDown
            } else if c == 'k' {
                Command::MoveUp
            } else if c == 'u' {
                Command::AddCurrent
            } else if c == '!' {
                Command::RequestDelete
            } else {
                Command::Noop
            },
            Key::Down => Command::MoveDown,
            Key::Up => Command::MoveUp,
            Key::Enter => Command::Select,
            Key::Other => Command::Noop,
        },
        InputMode::ConfirmingDelete => match key {
            Key::Char(c) => if c == 'y' || c == 'Y' {
                Command::ConfirmYes
            } else if c == 'n' || c == 'N' {
                Command::ConfirmNo
            } else {
                Command::Noop
            },
            _ => Command::Noop,
        },
    }
}

/// The table only hands out a command that fits the mode it was read in:
/// confirmation answers come only from confirmation mode, and confirmation
/// mode yields nothing but answers and no-ops.
pub proof fn lemma_map_key_fits_mode(mode: InputMode, key: Key, press: bool)
    ensures
        spec_map_key(mode, key, press) is ConfirmYes || spec_map_key(mode, key, press) is ConfirmNo
            ==> mode is ConfirmingDelete,
        mode is ConfirmingDelete ==> spec_map_key(mode, key, press) is ConfirmYes
            || spec_map_key(mode, key, press) is ConfirmNo
            || spec_map_key(mode, key, press) is Noop,
{
}

/// The view of an optional working directory.
pub open spec fn opt_str_view(c: Option<String>) -> Option<Seq<char>> {
    match c {
        Some(p) => Some(p@),
        None => None,
    }
}

/// The session state after one key event: the key is read through the table
/// and the resulting command is applied. Commands that stop the session
/// (`Select`, `Quit`) and failed additions leave the state unchanged.
pub open spec fn spec_step(v: SessionView, key: Key, press: bool, cwd: Option<Seq<char>>) -> SessionView {
    match spec_map_key(v.mode, key, press) {
        Command::MoveDown => spec_move_down(v),
        Command::MoveUp => spec_move_up(v),
        Command::AddCurrent => match cwd {
            Some(p) => spec_add(v, p),
            None => v,
        },
        Command::RequestDelete => spec_request_delete(v),
        Command::ConfirmYes => spec_confirm(v, true),
        Command::ConfirmNo => spec_confirm(v, false),
        Command::Select => v,
        Command::Quit => v,
        Command::Noop => v,
    }
}

/// One full step of the event loop's logic: map the key event through the
/// table, apply the resulting command, and say what the loop must do next.
/// `cwd` is the process's current working directory, consulted only when the
/// key asks for an addition.
pub fn handle_key(s: &mut Session, key: Key, press: bool, cwd: Option<String>) -> (act: Action)
    requires
        wf(old(s)@),
        old(s)@.bookmarks.len() < usize::MAX,
    ensures
        wf(final(s)@),
        final(s)@ == spec_step(old(s)@, key, press, opt_str_view(cwd)),
        act is Quit <==> spec_map_key(old(s)@.mode, key, press) is Quit,
        act matches Action::Emit(p) ==> spec_map_key(old(s)@.mode, key, press) is Select
            && old(s)@.bookmarks.len() > 0
            && p@ == old(s)@.bookmarks[old(s)@.selected].path,
        spec_map_key(old(s)@.mode, key, press) is Select && old(s)@.bookmarks.len() > 0
            ==> act is Emit,
        act is Persist <==> (spec_map_key(old(s)@.mode, key, press) is ConfirmYes
            || (spec_map_key(old(s)@.mode, key, press) is AddCurrent
                && (cwd matches Some(p) && !has_path(old(s)@.bookmarks, p@)))),
{
    let cmd = map_key(s.mode, key, press);
    proof {
        lemma_map_key_fits_mode(s.mode, key, press);
    }
    s.apply(cmd, cwd)
}

} // verus!
