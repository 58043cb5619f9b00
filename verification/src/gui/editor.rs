//! The entry editor: the fields being typed and the taking of them into an entry.
use vstd::prelude::*;
use crate::gui::error::GuiError;
use crate::gui::status::Color;
use crate::text::{blank, is_blank, lemma_blank_is_all_space, trim, trim_spec, unicode_whitespace};
use crate::vault::entry::{is_v4_uuid, Entry};
use crate::wipe::zeroize_string;

verus! {

/// Whether the editor window is open, and for what.
#[derive(Clone, Copy, PartialEq, Eq, Structural, Debug)]
pub enum EditorState {
    New,
    Edit,
    Close,
}

impl Default for EditorState {
    fn default() -> (s: EditorState)
        ensures
            s == EditorState::Close,
    {
        EditorState::Close
    }
}

/// The fields of the editor and of the search bar.
pub struct Main {
    /// The index of the entry being edited, if an existing one is.
    pub idx: Option<usize>,
    pub service: String,
    pub username: String,
    pub password: String,
    pub notes: String,
    /// Whether the password is shown in clear.
    pub show: bool,
    pub color: Color,
    pub editor_state: EditorState,
    pub search_line: String,
}

/// Whether a required field of the editor is blank.
pub open spec fn editor_incomplete(m: Main) -> bool {
    is_blank(m.service@) || is_blank(m.username@) || is_blank(m.password@)
}

/// The required fields must hold more than white space: an editor whose service, user
/// name or password trims to nothing is refused.
pub proof fn lemma_blank_required_field_refuses(m: Main)
    ensures
        trim_spec(m.service@).len() == 0 ==> editor_incomplete(m),
        trim_spec(m.username@).len() == 0 ==> editor_incomplete(m),
        trim_spec(m.password@).len() == 0 ==> editor_incomplete(m),
        (forall|k: int| 0 <= k < m.password@.len() ==> unicode_whitespace(#[trigger] m.password@[k]))
            ==> editor_incomplete(m),
{
    lemma_blank_is_all_space(m.password@);
}

/// Every entry taken from an accepted editor has a service, a user name and a password
/// that are not empty: the fields trimmed, none of them blank.
pub proof fn lemma_taken_entry_has_required_fields(m: Main, e: Entry)
    requires
        !editor_incomplete(m),
        entry_from_fields(e, m),
    ensures
        e.service@.len() > 0,
        e.username@.len() > 0,
        e.password@.len() > 0,
{
}

/// The note an entry gets from the note field: none when the field is blank, else the
/// field trimmed.
pub open spec fn note_of(notes: Seq<char>) -> Option<Seq<char>> {
    if is_blank(notes) {
        None
    } else {
        Some(trim_spec(notes))
    }
}

/// Whether `e` is the entry the editor fields of `m` make: its fields trimmed, the note
/// absent when blank, a fresh UUID.
pub open spec fn entry_from_fields(e: Entry, m: Main) -> bool {
    &&& e.service@ == trim_spec(m.service@)
    &&& e.username@ == trim_spec(m.username@)
    &&& e.password@ == trim_spec(m.password@)
    &&& match note_of(m.notes@) {
        None => e.notes is None,
        Some(n) => e.notes matches Some(s) && s@ == n,
    }
    &&& is_v4_uuid(e.uuid@)
}

/// What taking the fields leaves in the editor: no index, empty service, user name and
/// password, the note field emptied unless it was blank, everything else as it was.
pub open spec fn editor_after_take(old: Main, new: Main) -> bool {
    &&& new.idx is None
    &&& new.service@.len() == 0
    &&& new.username@.len() == 0
    &&& new.password@.len() == 0
    &&& new.notes@ == (if is_blank(old.notes@) {
        old.notes@
    } else {
        Seq::empty()
    })
    &&& new.show == old.show
    &&& new.color == old.color
    &&& new.editor_state == old.editor_state
    &&& new.search_line == old.search_line
}

impl Default for Main {
    fn default() -> (m: Main)
        ensures
            m.idx is None,
            m.service@.len() == 0,
            m.username@.len() == 0,
            m.password@.len() == 0,
            m.notes@.len() == 0,
            !m.show,
            m.color == Color::White,
            m.editor_state == EditorState::Close,
            m.search_line@.len() == 0,
    {
        Main {
            idx: None,
            service: String::new(),
            username: String::new(),
            password: String::new(),
            notes: String::new(),
            show: false,
            color: Color::White,
            editor_state: EditorState::Close,
            search_line: String::new(),
        }
    }
}

impl Main {
    /// Paints the editor fields red, to flag an error.
    pub fn err_color(&mut self)
        ensures
            *final(self) == (Main { color: Color::Red, ..*old(self) }),
    {
        self.color = Color::Red;
    }

    /// Paints the editor fields white again.
    pub fn common_color(&mut self)
        ensures
            *final(self) == (Main { color: Color::White, ..*old(self) }),
    {
        self.color = Color::White;
    }

    /// Whether the editor window is open.
    pub fn is_open(&self) -> (r: bool)
        ensures
            r == (self.editor_state == EditorState::New || self.editor_state == EditorState::Edit),
    {
        match self.editor_state {
            EditorState::New => true,
            EditorState::Edit => true,
            EditorState::Close => false,
        }
    }

    /// Whether a required field (service, user name, password) is blank.
    pub fn is_empty(&self) -> (r: bool)
        ensures
            r == editor_incomplete(*self),
    {
        blank(self.service.as_str()) || blank(self.username.as_str()) || blank(
            self.password.as_str(),
        )
    }

    /// Wipes the password field in place.
    pub fn clear_editor_secrets(&mut self)
        ensures
            *final(self) == (Main { password: final(self).password, ..*old(self) }),
            final(self).password@.len() == 0,
    {
        zeroize_string(&mut self.password);
    }

    /// Empties the editor: no index, blank fields, password hidden. The window state, the
    /// color and the search line stay.
    pub fn reset_editor(&mut self)
        ensures
            final(self).idx is None,
            final(self).service@.len() == 0,
            final(self).username@.len() == 0,
            final(self).password@.len() == 0,
            final(self).notes@.len() == 0,
            !final(self).show,
            final(self).color == old(self).color,
            final(self).editor_state == old(self).editor_state,
            final(self).search_line == old(self).search_line,
    {
        self.idx = None;
        self.service = String::new();
        self.username = String::new();
        self.clear_editor_secrets();
        self.notes = String::new();
        self.show = false;
    }

    /// Takes the typed fields into a new entry (with a fresh UUID), trimmed, together with
    /// the index of the entry being edited. Fails, changing nothing, when a required field
    /// is blank. On success the index, service, user name and password fields are emptied,
    /// and so is the note field unless it was blank, in which case it is left as it was.
    pub fn take_edit_data(&mut self) -> (r: Result<(Option<usize>, Entry), GuiError>)
        ensures
            editor_incomplete(*old(self)) ==> (r is Err && r->Err_0 is EmptyData && *final(self)
                == *old(self)),
            !editor_incomplete(*old(self)) ==> r is Ok,
            r matches Ok((idx, e)) ==> {
                &&& e.service@.len() > 0
                &&& e.username@.len() > 0
                &&& e.password@.len() > 0
                &&& idx == old(self).idx
                &&& entry_from_fields(e, *old(self))
                &&& editor_after_take(*old(self), *final(self))
            },
    {
        if self.is_empty() {
            return Err(GuiError::EmptyData);
        }
        let idx = self.idx.take();
        let service = trim(self.service.as_str());
        self.service = String::new();
        let username = trim(self.username.as_str());
        self.username = String::new();
        let password = trim(self.password.as_str());
        zeroize_string(&mut self.password);
        let notes = if blank(self.notes.as_str()) {
            None
        } else {
            let n = trim(self.notes.as_str());
            self.notes = String::new();
            Some(n)
        };
        self.clear_editor_secrets();
        Ok((idx, Entry::new(service, username, password, notes)))
    }
}

} // verus!
