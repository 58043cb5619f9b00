//! The entry record of the command-line tool, whose listing shows passwords in clear.
use vstd::prelude::*;
use vstd::string::StringExecFns;

verus! {

/// A stored credential as the command-line tool handles it.
pub struct Entry {
    pub uuid: String,
    pub service: String,
    pub username: String,
    pub password: String,
    pub notes: Option<String>,
}

/// How the command-line tool lists an entry: every field, the password included, the note
/// empty when there is none.
pub open spec fn listing_text(e: Entry) -> Seq<char> {
    "***\nuuid: "@ + e.uuid@ + "\nservice: "@ + e.service@ + "\nusername: "@ + e.username@
        + "\npassword: "@ + e.password@ + "\nnotes: "@ + crate::vault::entry::notes_text(e.notes)
        + "\n"@
}

/// The listing closes with the note: its last line is `notes: ` followed by the note's
/// text, nothing after the label when there is no note.
pub proof fn lemma_listing_ends_with_note(e: Entry)
    ensures
        e.notes matches Some(n) ==> listing_text(e).len() >= n@.len() + 9 && listing_text(
            e,
        ).subrange(listing_text(e).len() - n@.len() - 9, listing_text(e).len() as int)
            == "\nnotes: "@ + n@ + "\n"@,
        e.notes is None ==> listing_text(e).len() >= 9 && listing_text(e).subrange(
            listing_text(e).len() - 9,
            listing_text(e).len() as int,
        ) == "\nnotes: \n"@,
{
    reveal_strlit("\nnotes: ");
    reveal_strlit("\n");
    reveal_strlit("\nnotes: \n");
    let head = "***\nuuid: "@ + e.uuid@ + "\nservice: "@ + e.service@ + "\nusername: "@
        + e.username@ + "\npassword: "@ + e.password@;
    let tail = "\nnotes: "@ + crate::vault::entry::notes_text(e.notes) + "\n"@;
    assert(listing_text(e) =~= head + tail);
    assert((head + tail).subrange(head.len() as int, (head + tail).len() as int) =~= tail);
    assert("\nnotes: "@.len() == 8);
    if e.notes is None {
        assert(tail =~= "\nnotes: \n"@);
    }
}

/// The listing shows the password as stored, on its own line after the label.
pub proof fn lemma_listing_shows_password(e: Entry)
    ensures
        exists|i: int|
            0 <= i && i + e.password@.len() + 12 <= listing_text(e).len() && #[trigger] listing_text(e)
                .subrange(i, i + e.password@.len() + 12) == "\npassword: "@ + e.password@
                + "\n"@,
{
    reveal_strlit("\npassword: ");
    reveal_strlit("\n");
    reveal_strlit("\nnotes: ");
    let head = "***\nuuid: "@ + e.uuid@ + "\nservice: "@ + e.service@ + "\nusername: "@
        + e.username@;
    let mid = "\npassword: "@ + e.password@ + "\n"@;
    let rest = "notes: "@ + crate::vault::entry::notes_text(e.notes) + "\n"@;
    reveal_strlit("notes: ");
    assert("\nnotes: "@ =~= "\n"@ + "notes: "@);
    assert(listing_text(e) =~= head + mid + rest);
    let i = head.len() as int;
    assert((head + mid + rest).subrange(i, i + mid.len()) =~= mid);
    assert("\npassword: "@.len() == 11);
    assert(mid.len() == e.password@.len() + 12);
    assert(listing_text(e).subrange(i, i + e.password@.len() + 12) == "\npassword: "@
        + e.password@ + "\n"@);
}

impl Entry {
    /// The entry as the command-line tool lists it.
    pub fn to_string(&self) -> (r: String)
        ensures
            r@ == listing_text(*self),
    {
        let mut s = String::from_str("***\nuuid: ");
        s.append(self.uuid.as_str());
        s.append("\nservice: ");
        s.append(self.service.as_str());
        s.append("\nusername: ");
        s.append(self.username.as_str());
        s.append("\npassword: ");
        s.append(self.password.as_str());
        s.append("\nnotes: ");
        match &self.notes {
            Some(n) => s.append(n.as_str()),
            None => {},
        }
        s.append("\n");
        proof {
            if self.notes is None {
                assert(crate::vault::entry::notes_text(self.notes) =~= Seq::<char>::empty());
            }
        }
        s
    }
}

} // verus!
