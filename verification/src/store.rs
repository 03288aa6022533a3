//! The store: the persistence boundary between the in-memory bookmark list
//! and the on-disk TOML document. Reading and writing the file itself is the
//! caller's concern; this module turns file content into a list and back, and
//! carries the availability policy: a missing or unparsable file is an empty
//! list, never an error.

use vstd::prelude::*;
use std::collections::BTreeMap;
use crate::bookmark::{Bookmark, BookmarkView, list_view};

verus! {

/// The list of records that parsing TOML text as a bookmark document yields:
/// a table with a single `bookmarks` array of tables, each with a `name` and
/// a `path` string. `None` stands for text that does not parse as that.
pub uninterp spec fn toml_parse(s: Seq<char>) -> Option<Seq<BookmarkView>>;

/// The TOML document that serializing a bookmark list produces.
pub uninterp spec fn toml_doc(l: Seq<BookmarkView>) -> Seq<char>;

/// The list that loading given file content yields: an empty list for a
/// missing file (`None`) and for content that does not parse, the parsed
/// records otherwise.
pub open spec fn spec_load(content: Option<Seq<char>>) -> Seq<BookmarkView> {
    match content {
        None => Seq::empty(),
        Some(s) => match toml_parse(s) {
            Some(l) => l,
            None => Seq::empty(),
        },
    }
}

/// Relies on toml::to_string: serializes the list as one `bookmarks` array of
/// tables with `name` and `path` string values (serializing string tables
/// cannot fail), and on toml::from_str: parsing the produced document yields
/// the same records in the same order.
#[verifier::external_body]
fn toml_encode(list: &Vec<Bookmark>) -> (r: String)
    ensures
        r@ == toml_doc(list_view(list@)),
        toml_parse(r@) == Some(list_view(list@)),
{
    let records: Vec<BTreeMap<&str, &str>> = list
        .iter()
        .map(|b| BTreeMap::from([("name", b.name.as_str()), ("path", b.path.as_str())]))
        .collect();
    let document = BTreeMap::from([("bookmarks", records)]);
    toml::to_string(&document).unwrap_or_default()
}

/// Relies on toml::from_str: parses the text as a table holding a `bookmarks`
/// array of string tables, and hands each record's `name` and `path` back as
/// plain strings; `None` on any text of another shape.
#[verifier::external_body]
fn toml_decode(content: &str) -> (r: Option<Vec<Bookmark>>)
    ensures
        r matches Some(v) ==> toml_parse(content@) == Some(list_view(v@)),
        r is None ==> toml_parse(content@) is None,
{
    let mut top: BTreeMap<String, Vec<BTreeMap<String, String>>> = toml::from_str(content).ok()?;
    let records = top.remove("bookmarks")?;
    let mut out = Vec::with_capacity(records.len());
    for mut record in records {
        let name = record.remove("name")?;
        let path = record.remove("path")?;
        out.push(Bookmark { name, path });
    }
    Some(out)
}

/// The list a session starts from, given what was read from the bookmark
/// file: `None` when the file does not exist, its text otherwise. A missing
/// file and unparsable content both yield an empty list — the program must
/// always start.
pub fn load_from_content(content: Option<&str>) -> (r: Vec<Bookmark>)
    ensures
        match content {
            Some(s) => list_view(r@) == spec_load(Some(s@)),
            None => r@.len() == 0,
        },
        content matches Some(s) && toml_parse(s@) is None ==> r@.len() == 0,
{
    match content {
        None => Vec::new(),
        Some(s) => match toml_decode(s) {
            Some(v) => v,
            None => Vec::new(),
        },
    }
}

/// The document to write when persisting the list. Loading the produced text
/// back yields a list with the same names and paths in the same order, even
/// where the exact file bytes of an earlier document differed.
pub fn save_to_content(list: &Vec<Bookmark>) -> (r: String)
    ensures
        r@ == toml_doc(list_view(list@)),
        spec_load(Some(r@)) == list_view(list@),
{
    toml_encode(list)
}

} // verus!
