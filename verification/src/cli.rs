//! The rules of the command-line tool: the password lengths it offers, and adding and
//! removing entries in its list. Prompting, printing and writing the vault are the
//! caller's.
use vstd::prelude::*;
use crate::entry::Entry;
use crate::vault::crypto::{generate_password as random_password, password_alphabet};
use crate::vault::entry::{is_v4_uuid, new_uuid_v4};

verus! {

/// The length offered at menu position `selection`: 12, 16, 20 or 24 characters, and 16
/// for any other position.
pub open spec fn offered_length(selection: usize) -> usize {
    if selection == 0 {
        12
    } else if selection == 1 {
        16
    } else if selection == 2 {
        20
    } else if selection == 3 {
        24
    } else {
        16
    }
}

/// A random password of the length picked at menu position `selection`.
pub fn generate_password(selection: usize) -> (r: String)
    ensures
        r@.len() == offered_length(selection),
        forall|i: int| 0 <= i < r@.len() ==> password_alphabet().contains(#[trigger] r@[i]),
{
    let length: usize = if selection == 0 {
        12
    } else if selection == 1 {
        16
    } else if selection == 2 {
        20
    } else if selection == 3 {
        24
    } else {
        16
    };
    random_password(length)
}

/// Removes every entry whose UUID is `uuid`, keeping the others in order.
pub fn remove_password(entries: &mut Vec<Entry>, uuid: &String)
    ensures
        final(entries)@ == old(entries)@.filter(|e: Entry| e.uuid@ != uuid@),
{
    let ghost pred = |e: Entry| e.uuid@ != uuid@;
    let mut kept: Vec<Entry> = Vec::new();
    let n = entries.len();
    let mut i: usize = 0;
    while i < n
        invariant
            n == entries@.len(),
            entries@ == old(entries)@,
            i <= n,
            pred == (|e: Entry| e.uuid@ != uuid@),
            kept@ == entries@.take(i as int).filter(pred),
        decreases n - i,
    {
        let ghost before = kept@;
        let e = &entries[i];
        let same = e.uuid == *uuid;
        if !same {
            let copy = Entry {
                uuid: e.uuid.clone(),
                service: e.service.clone(),
                username: e.username.clone(),
                password: e.password.clone(),
                notes: match &e.notes {
                    Some(s) => Some(s.clone()),
                    None => None,
                },
            };
            assert(copy == entries@[i as int]);
            kept.push(copy);
        }
        proof {
            reveal_with_fuel(Seq::<_>::filter, 1);
            let t = entries@.take(i + 1);
            assert(t.drop_last() =~= entries@.take(i as int));
            assert(t.last() == entries@[i as int]);
            if pred(entries@[i as int]) {
                assert(kept@ =~= before.push(entries@[i as int]));
            } else {
                assert(kept@ =~= before);
            }
        }
        i = i + 1;
    }
    assert(entries@.take(n as int) =~= entries@);
    *entries = kept;
}

/// Appends a new entry with a fresh UUID; an empty note is stored as none.
pub fn add_password(entries: &mut Vec<Entry>, service: String, username: String, password: String, notes: String)
    ensures
        final(entries)@.len() == old(entries)@.len() + 1,
        final(entries)@.drop_last() == old(entries)@,
        final(entries)@.last().service == service,
        final(entries)@.last().username == username,
        final(entries)@.last().password == password,
        notes@.len() == 0 ==> final(entries)@.last().notes is None,
        notes@.len() != 0 ==> final(entries)@.last().notes == Some(notes),
        is_v4_uuid(final(entries)@.last().uuid@),
{
    let notes = if notes.as_str().is_empty() {
        None
    } else {
        Some(notes)
    };
    let entry = Entry { uuid: new_uuid_v4(), service, username, password, notes };
    entries.push(entry);
    assert(entries@.drop_last() =~= old(entries)@);
}

} // verus!
