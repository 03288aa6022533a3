//! Bookmarks: a display name paired with a filesystem path, and the
//! auto-generated naming scheme for newly added entries.

use vstd::prelude::*;

verus! {

/// Mathematical content of a bookmark: its display name and its path, each as
/// a sequence of characters.
pub struct BookmarkView {
    pub name: Seq<char>,
    pub path: Seq<char>,
}

/// A named reference to a filesystem directory path. `path` is the
/// semantically significant field; `name` is a display label.
#[derive(Clone)]
pub struct Bookmark {
    pub name: String,
    pub path: String,
}

impl View for Bookmark {
    type V = BookmarkView;

    open spec fn view(&self) -> BookmarkView {
        BookmarkView { name: self.name@, path: self.path@ }
    }
}

/// The views of the bookmarks of a list, in order.
pub open spec fn list_view(s: Seq<Bookmark>) -> Seq<BookmarkView> {
    s.map_values(|b: Bookmark| b@)
}

/// Whether some bookmark of `l` has path `p`.
pub open spec fn has_path(l: Seq<BookmarkView>, p: Seq<char>) -> bool {
    exists|i: int| 0 <= i < l.len() && l[i].path == p
}

/// How many bookmarks of `l` have path `p`.
pub open spec fn count_path(l: Seq<BookmarkView>, p: Seq<char>) -> nat
    decreases l.len(),
{
    if l.len() == 0 {
        0
    } else {
        count_path(l.drop_last(), p) + if l.last().path == p { 1nat } else { 0nat }
    }
}

/// A list has a bookmark with path `p` exactly when it counts at least one.
pub proof fn lemma_count_path_zero(l: Seq<BookmarkView>, p: Seq<char>)
    ensures
        count_path(l, p) == 0 <==> !has_path(l, p),
    decreases l.len(),
{
    if l.len() > 0 {
        lemma_count_path_zero(l.drop_last(), p);
        if has_path(l.drop_last(), p) {
            let i = choose|i: int| 0 <= i < l.drop_last().len() && l.drop_last()[i].path == p;
            assert(l[i].path == p);
        }
        if has_path(l, p) && l.last().path != p {
            let i = choose|i: int| 0 <= i < l.len() && l[i].path == p;
            assert(l.drop_last()[i].path == p);
        }
    }
}

/// Appending one bookmark raises the count for its path by one and leaves
/// every other count unchanged.
pub proof fn lemma_count_path_push(l: Seq<BookmarkView>, b: BookmarkView, p: Seq<char>)
    ensures
        count_path(l.push(b), p) == count_path(l, p) + if b.path == p { 1nat } else { 0nat },
{
    assert(l.push(b).drop_last() =~= l);
}

/// Whether any bookmark of the list has path `p`.
pub fn contains_path(list: &Vec<Bookmark>, p: &String) -> (r: bool)
    ensures
        r == has_path(list_view(list@), p@),
{
    let mut i: usize = 0;
    while i < list.len()
        invariant
            i <= list@.len(),
            forall|j: int| 0 <= j < i ==> list_view(list@)[j].path != p@,
        decreases list@.len() - i,
    {
        if list[i].path.eq(p) {
            assert(list_view(list@)[i as int].path == p@);
            return true;
        }
        i = i + 1;
    }
    false
}

/// The character for a single decimal digit.
pub open spec fn spec_digit(d: nat) -> char {
    if d == 0 { '0' }
    else if d == 1 { '1' }
    else if d == 2 { '2' }
    else if d == 3 { '3' }
    else if d == 4 { '4' }
    else if d == 5 { '5' }
    else if d == 6 { '6' }
    else if d == 7 { '7' }
    else if d == 8 { '8' }
    else { '9' }
}

/// The decimal representation of `n`, most significant digit first, with no
/// leading zeros (a single `'0'` for zero).
pub open spec fn spec_decimal(n: nat) -> Seq<char>
    decreases n,
{
    if n < 10 {
        seq![spec_digit(n)]
    } else {
        spec_decimal(n / 10).push(spec_digit(n % 10))
    }
}

/// The auto-generated display name for the `n`-th addition: `bookmark_n`.
pub open spec fn spec_auto_name(n: nat) -> Seq<char> {
    "bookmark_"@ + spec_decimal(n)
}

fn digit_str(d: usize) -> (r: &'static str)
    requires
        d < 10,
    ensures
        r@ =~= seq![spec_digit(d as nat)],
{
    proof {
        reveal_strlit("0");
        reveal_strlit("1");
        reveal_strlit("2");
        reveal_strlit("3");
        reveal_strlit("4");
        reveal_strlit("5");
        reveal_strlit("6");
        reveal_strlit("7");
        reveal_strlit("8");
        reveal_strlit("9");
    }
    if d == 0 { "0" }
    else if d == 1 { "1" }
    else if d == 2 { "2" }
    else if d == 3 { "3" }
    else if d == 4 { "4" }
    else if d == 5 { "5" }
    else if d == 6 { "6" }
    else if d == 7 { "7" }
    else if d == 8 { "8" }
    else { "9" }
}

/// The decimal digits of `n` as a string.
pub fn decimal_string(n: usize) -> (r: String)
    ensures
        r@ == spec_decimal(n as nat),
    decreases n,
{
    let d = n % 10;
    let ds = digit_str(d);
    if n < 10 {
        let r = ds.to_owned();
        assert(r@ =~= spec_decimal(n as nat));
        r
    } else {
        let mut s = decimal_string(n / 10);
        s.append(ds);
        assert(s@ =~= spec_decimal(n as nat));
        s
    }
}

/// The display name given to a bookmark added as the `n`-th entry.
pub fn auto_name(n: usize) -> (r: String)
    ensures
        r@ == spec_auto_name(n as nat),
{
    let mut s = String::from_str("bookmark_");
    let digits = decimal_string(n);
    s.append(digits.as_str());
    s
}

} // verus!
