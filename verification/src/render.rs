//! The renderer: a pure function from session state to a frame description.
//! Drawing the frame on a terminal is the event loop's concern; everything
//! the drawing needs is pinned down here as plain data.

use vstd::prelude::*;
use crate::session::{InputMode, Session};

verus! {

/// The bottom line of the frame: a help bar in normal mode, a titled yes/no
/// prompt while a delete confirmation is pending.
pub enum Footer {
    Help(String),
    Confirm { title: String, prompt: String },
}

/// One visual frame: a bordered list panel and a footer. The entry at
/// `selected` is drawn highlighted and prefixed with `marker`.
pub struct FrameModel {
    /// Title of the bordered list panel.
    pub title: String,
    /// One row per bookmark: its path, in list order.
    pub rows: Vec<String>,
    /// Index of the highlighted row.
    pub selected: usize,
    /// Marker prefixed to the highlighted row.
    pub marker: String,
    /// Help bar or confirmation prompt.
    pub footer: Footer,
}

/// Describe the frame for a session state. Every field of the result is a
/// function of the state alone, so rendering twice over an unchanged state
/// describes an unchanged frame.
pub fn render(s: &Session) -> (f: FrameModel)
    ensures
        f.title@ == "Bookmarks"@,
        f.rows@.len() == s@.bookmarks.len(),
        forall|i: int| 0 <= i < f.rows@.len() ==> f.rows@[i]@ == s@.bookmarks[i].path,
        f.selected == s@.selected,
        f.marker@ == "→ "@,
        s@.mode is Normal ==> (f.footer matches Footer::Help(h)
            && h@ == "j/k: move  u: add bookmark  !: delete  Enter: select  q: quit"@),
        s@.mode is ConfirmingDelete ==> (f.footer matches Footer::Confirm { title, prompt }
            && title@ == "Confirm"@
            && prompt@ == "Delete this bookmark? (y/n)"@),
{
    let mut rows: Vec<String> = Vec::new();
    let mut i: usize = 0;
    while i < s.bookmarks.len()
        invariant
            i <= s.bookmarks@.len(),
            rows@.len() == i,
            forall|j: int| 0 <= j < i ==> rows@[j]@ == s@.bookmarks[j].path,
        decreases s.bookmarks@.len() - i,
    {
        rows.push(s.bookmarks[i].path.clone());
        i = i + 1;
    }
    let footer = match s.mode {
        InputMode::Normal => Footer::Help(
            String::from_str("j/k: move  u: add bookmark  !: delete  Enter: select  q: quit"),
        ),
        InputMode::ConfirmingDelete => Footer::Confirm {
            title: String::from_str("Confirm"),
            prompt: String::from_str("Delete this bookmark? (y/n)"),
        },
    };
    FrameModel {
        title: String::from_str("Bookmarks"),
        rows,
        selected: s.selected,
        marker: String::from_str("→ "),
        footer,
    }
}

} // verus!
