//! One record of the vault.
use vstd::prelude::*;
use vstd::string::StringExecFns;

verus! {

/// Whether `c` is a lower-case hexadecimal digit.
pub open spec fn is_lower_hex(c: char) -> bool {
    ('0' as u32 <= c as u32 <= '9' as u32) || ('a' as u32 <= c as u32 <= 'f' as u32)
}

/// Whether `i` is a position of a hyphen in the hyphenated form of a UUID.
pub open spec fn is_uuid_hyphen_position(i: int) -> bool {
    i == 8 || i == 13 || i == 18 || i == 23
}

/// Whether `s` is a random (version 4, RFC 9562 variant) UUID in the hyphenated lower-case
/// form `Uuid::to_string` prints: 36 characters, hyphens at positions 8, 13, 18 and 23,
/// lower-case hexadecimal digits elsewhere, the version digit `4` at position 14 and a
/// variant digit `8`, `9`, `a` or `b` at position 19.
pub open spec fn is_v4_uuid(s: Seq<char>) -> bool {
    &&& s.len() == 36
    &&& forall|i: int|
        0 <= i < 36 ==> if is_uuid_hyphen_position(i) {
            s[i] == '-'
        } else {
            is_lower_hex(#[trigger] s[i])
        }
    &&& s[14] == '4'
    &&& (s[19] == '8' || s[19] == '9' || s[19] == 'a' || s[19] == 'b')
}

/// A fresh random version-4 UUID, rendered by `Uuid::new_v4().to_string()`. Its form is
/// stated: `new_v4` (uuid 1.29, `v4.rs`) masks in the version nibble 4 and the variant bits
/// `10`, and `Display` prints the hyphenated lower-case form (`fmt.rs`,
/// `format_hyphenated`). Its digits are random. Like the generator it draws from, the call
/// panics if the operating system cannot supply randomness.
#[verifier::external_body]
pub(crate) fn new_uuid_v4() -> (r: String)
    ensures
        is_v4_uuid(r@),
{
    uuid::Uuid::new_v4().to_string()
}

/// A stored credential: the service it is for, the user name and password there, and an
/// optional note, under a unique identifier.
#[derive(Clone)]
pub struct Entry {
    pub uuid: String,
    pub service: String,
    pub username: String,
    pub password: String,
    pub notes: Option<String>,
}

/// The text of an optional note, empty when there is none.
pub open spec fn notes_text(notes: Option<String>) -> Seq<char> {
    match notes {
        Some(n) => n@,
        None => Seq::empty(),
    }
}

/// How an entry is shown: every field but the password, which is replaced by `[redacted]`.
pub open spec fn display_text(e: Entry) -> Seq<char> {
    "***\nuuid: "@ + e.uuid@ + "\nservice: "@ + e.service@ + "\nusername: "@ + e.username@
        + "\npassword: [redacted]\nnotes: "@ + notes_text(e.notes) + "\n"@
}

/// Showing an entry never depends on its password: two entries that differ at most in
/// their passwords are shown alike.
pub proof fn lemma_display_ignores_password(a: Entry, b: Entry)
    requires
        a.uuid@ == b.uuid@,
        a.service@ == b.service@,
        a.username@ == b.username@,
        notes_text(a.notes) == notes_text(b.notes),
    ensures
        display_text(a) == display_text(b),
{
}

impl Entry {
    /// A new entry with a fresh random UUID.
    pub fn new(service: String, username: String, password: String, notes: Option<String>) -> (e: Entry)
        ensures
            e.service == service,
            e.username == username,
            e.password == password,
            e.notes == notes,
            is_v4_uuid(e.uuid@),
    {
        Entry { uuid: new_uuid_v4(), service, username, password, notes }
    }

    /// The password of the entry.
    pub fn password(&self) -> (r: &str)
        ensures
            r@ == self.password@,
    {
        self.password.as_str()
    }

    /// The entry as it is shown to the user, password redacted.
    pub fn to_string(&self) -> (r: String)
        ensures
            r@ == display_text(*self),
    {
        let mut s = String::from_str("***\nuuid: ");
        s.append(self.uuid.as_str());
        s.append("\nservice: ");
        s.append(self.service.as_str());
        s.append("\nusername: ");
        s.append(self.username.as_str());
        s.append("\npassword: [redacted]\nnotes: ");
        match &self.notes {
            Some(n) => s.append(n.as_str()),
            None => {},
        }
        s.append("\n");
        proof {
            if self.notes is None {
                assert(notes_text(self.notes) =~= Seq::<char>::empty());
            }
        }
        s
    }
}

} // verus!
