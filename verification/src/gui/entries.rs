//! The entries of the unlocked vault, in the order they were added. Persisting them is
//! done by the caller: their JSON is written by the front end, sealed by
//! `vault::storage::save_entries`.
use vstd::prelude::*;
use crate::vault::entry::Entry;
use crate::wipe::zeroize_string;

verus! {

/// The entries of the unlocked vault.
pub struct Entries(Vec<Entry>);

impl View for Entries {
    type V = Seq<Entry>;

    closed spec fn view(&self) -> Seq<Entry> {
        self.0@
    }
}

impl Default for Entries {
    fn default() -> (e: Entries)
        ensures
            e@ == Seq::<Entry>::empty(),
    {
        Entries(Vec::new())
    }
}

impl Entries {
    /// Entries holding `list`, in its order.
    pub fn from_vec(list: Vec<Entry>) -> (e: Entries)
        ensures
            e@ == list@,
    {
        Entries(list)
    }

    /// The number of entries.
    pub fn len(&self) -> (r: usize)
        ensures
            r == self@.len(),
    {
        self.0.len()
    }

    /// The entry at `idx`.
    pub fn get(&self, idx: usize) -> (r: &Entry)
        requires
            idx < self@.len(),
        ensures
            *r == self@[idx as int],
    {
        &self.0[idx]
    }

    /// The entries as a slice, in order.
    pub fn as_slice(&self) -> (r: &[Entry])
        ensures
            r@ == self@,
    {
        self.0.as_slice()
    }

    /// Appends `entry` at the end.
    pub fn add(&mut self, entry: Entry)
        ensures
            final(self)@ == old(self)@.push(entry),
    {
        self.0.push(entry);
    }

    /// Removes the entry at `idx`, keeping the order of the others; the removed entry's
    /// password is wiped before it is let go.
    pub fn remove(&mut self, idx: usize)
        requires
            idx < old(self)@.len(),
        ensures
            final(self)@ == old(self)@.remove(idx as int),
    {
        let mut gone = self.0.remove(idx);
        zeroize_string(&mut gone.password);
    }

    /// Puts `entry` in place of the entry at `idx`; the password of the entry it replaces
    /// is wiped.
    pub fn replace(&mut self, idx: usize, entry: Entry)
        requires
            idx < old(self)@.len(),
        ensures
            final(self)@ == old(self)@.update(idx as int, entry),
    {
        let mut gone = self.0.remove(idx);
        zeroize_string(&mut gone.password);
        self.0.insert(idx, entry);
        assert(self.0@ =~= old(self)@.update(idx as int, entry));
    }

    /// Drops every entry, wiping each password first.
    pub fn clear(&mut self)
        ensures
            final(self)@ == Seq::<Entry>::empty(),
    {
        while self.0.len() > 0
            invariant
                true,
            decreases self.0@.len(),
        {
            match self.0.pop() {
                Some(mut gone) => zeroize_string(&mut gone.password),
                None => {},
            }
        }
    }
}

} // verus!
