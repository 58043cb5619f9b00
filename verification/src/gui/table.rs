//! The rules of the entry table: which entries the search line keeps, and the labels of
//! the copy actions.
use vstd::prelude::*;
use crate::text::{contains, occurs_in, to_lowercase, unicode_lowercase};
use crate::vault::entry::Entry;

verus! {

/// A field of an entry that can be copied from the table.
pub enum CopyField {
    Service,
    Username,
    Password,
}

impl CopyField {
    /// The label of the copy action for the field.
    pub fn copy_label(self) -> (r: &'static str)
        ensures
            self is Service ==> r@ == "Copy service"@,
            self is Username ==> r@ == "Copy username"@,
            self is Password ==> r@ == "Copy password"@,
    {
        match self {
            CopyField::Service => "Copy service",
            CopyField::Username => "Copy username",
            CopyField::Password => "Copy password",
        }
    }
}

/// Whether `needle` occurs in `field` when both are lower-cased.
pub open spec fn folded_occurs(needle: Seq<char>, field: Seq<char>) -> bool {
    occurs_in(unicode_lowercase(needle), unicode_lowercase(field))
}

/// Whether the search line `query` keeps `entry`: an empty query keeps every entry; else
/// the query must occur, ignoring case, in the service, the user name or the note. The
/// password is never searched.
pub open spec fn search_keeps(entry: Entry, query: Seq<char>) -> bool {
    ||| query.len() == 0
    ||| folded_occurs(query, entry.service@)
    ||| folded_occurs(query, entry.username@)
    ||| (entry.notes matches Some(n) && folded_occurs(query, n@))
}

/// The search never looks at passwords: entries that differ at most in their passwords are
/// kept or dropped alike, whatever the query.
pub proof fn lemma_search_ignores_password(a: Entry, b: Entry, query: Seq<char>)
    requires
        a.service@ == b.service@,
        a.username@ == b.username@,
        a.notes is Some <==> b.notes is Some,
        a.notes matches Some(n) ==> (b.notes matches Some(m) && n@ == m@),
    ensures
        search_keeps(a, query) == search_keeps(b, query),
{
}

/// A non-empty search keeps an entry exactly when the lower-cased query occurs in the
/// lower-cased service, user name or note; an entry without a note is matched on its
/// service and user name alone, and an empty query keeps every entry.
pub proof fn lemma_search_finds_query(entry: Entry, query: Seq<char>)
    ensures
        query.len() == 0 ==> search_keeps(entry, query),
        query.len() > 0 ==> (search_keeps(entry, query) <==> (occurs_in(
            unicode_lowercase(query),
            unicode_lowercase(entry.service@),
        ) || occurs_in(unicode_lowercase(query), unicode_lowercase(entry.username@)) || (exists|
            n: String,
        | entry.notes == Some(n) && occurs_in(
            unicode_lowercase(query),
            #[trigger] unicode_lowercase(n@),
        )))),
        query.len() > 0 && entry.notes is None ==> (search_keeps(entry, query) <==> (occurs_in(
            unicode_lowercase(query),
            unicode_lowercase(entry.service@),
        ) || occurs_in(unicode_lowercase(query), unicode_lowercase(entry.username@)))),
{
    if let Some(n) = entry.notes {
        assert(entry.notes == Some(n));
        assert(unicode_lowercase(n@) == unicode_lowercase(n@));
    }
}

/// Whether the table shows `entry` for the search line `search_line`.
pub fn search_match(entry: &Entry, search_line: &str) -> (r: bool)
    ensures
        r == search_keeps(*entry, search_line@),
{
    if search_line.is_empty() {
        return true;
    }
    let needle = to_lowercase(search_line);
    let service = to_lowercase(entry.service.as_str());
    if contains(service.as_str(), needle.as_str()) {
        return true;
    }
    let username = to_lowercase(entry.username.as_str());
    if contains(username.as_str(), needle.as_str()) {
        return true;
    }
    match &entry.notes {
        Some(n) => {
            let notes = to_lowercase(n.as_str());
            contains(notes.as_str(), needle.as_str())
        },
        None => false,
    }
}

} // verus!
