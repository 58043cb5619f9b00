//! The whole state of the front end and the rules that move it: unlocking, locking on
//! idleness, editing entries, changing the master password and the settings. Reading and
//! writing files, JSON and the clock are the caller's: the functions here take what was
//! read and hand back what is to be written.
use vstd::prelude::*;
use vstd::string::StringExecFns;
use crate::gui::auth::{accepts, Auth, MasterPasswordChange};
use crate::gui::command::{after_set, effect_of, Cmd, Command, Effect};
use crate::gui::editor::{editor_after_take, editor_incomplete, entry_from_fields, EditorState, Main};
use crate::gui::entries::Entries;
use crate::gui::error::{gui_error_text, GuiError};
use crate::gui::security::Security;
use crate::gui::session::{clamp_timeout, due_to_lock, Session};
use crate::gui::status::{error_text, locked_text, message_line, unlocked_text, Color, Status};
use crate::text::{append_decimal, blank, decimal, is_blank, trim_end_spec, trim_spec, trim_start_spec};
use crate::vault::crypto::{generate_password, password_alphabet};
use crate::vault::entry::{notes_text, Entry};
use crate::vault::error::VaultError;
use crate::vault::settings::AppSettings;
use crate::vault::storage::{is_storage_file, load_entries, short_storage_message, stored_plaintext, stored_salt, SALT_LEN};
use crate::vault::crypto::argon2_default_key;
use crate::vault::error::Argon2Failure;
use crate::vault::crypto::P_MAX;

verus! {

/// Length of the passwords the editor generates.
pub const GENERATED_PASSWORD_LEN: usize = 32;

/// The front end's state.
pub struct State {
    auth: Auth,
    status: Status,
    entries: Entries,
    cmd: Command,
    session: Session,
    security: Security,
    pub main: Main,
}

/// Whether nothing secret is left in a locked state: the key, the salt and the typed
/// passwords are wiped, no entry is held and the status line says the vault is locked.
pub open spec fn wiped(s: State) -> bool {
    &&& s.auth_part().key_bytes() == Seq::new(32, |i: int| 0u8)
    &&& s.auth_part().salt_bytes() == Seq::new(16, |i: int| 0u8)
    &&& s.auth_part().master_text().len() == 0
    &&& s.entries_part()@.len() == 0
    &&& s.editor_part().password@.len() == 0
    &&& s.editor_part().service@.len() == 0
    &&& s.editor_part().username@.len() == 0
    &&& s.editor_part().notes@.len() == 0
    &&& s.security_part().current@.len() == 0
    &&& s.security_part().new@.len() == 0
    &&& s.security_part().confirm@.len() == 0
    &&& !s.security_part().change_password_open
    &&& !s.security_part().settings_open
    &&& s.session_part().last_activity is None
    &&& !s.status_part().unlocked()
    &&& s.status_part().text() == locked_text()
}

/// What locking makes of `old`: nothing secret is left (`wiped`), the editor's index is
/// cleared and its password hidden, the status line is red, and the pending command, the
/// idle timeout, the editor's window state, color and search line stay as they were.
pub open spec fn locked_after(old: State, new: State) -> bool {
    &&& wiped(new)
    &&& new.status_part().tint() == Color::Red
    &&& new.cmd_part() == old.cmd_part()
    &&& new.session_part().auto_lock_secs == old.session_part().auto_lock_secs
    &&& new.editor_part().idx is None
    &&& !new.editor_part().show
    &&& new.editor_part().editor_state == old.editor_part().editor_state
    &&& new.editor_part().color == old.editor_part().color
    &&& new.editor_part().search_line == old.editor_part().search_line
    &&& new.security_part().auto_lock_secs == old.security_part().auto_lock_secs
}

/// The editor opened empty on a new entry; its color and search line, and the rest of
/// the state, stay as they were.
pub open spec fn opened_new_editor(old: State, new: State) -> bool {
    &&& new.editor_part().editor_state == EditorState::New
    &&& new.editor_part().idx is None
    &&& new.editor_part().service@.len() == 0
    &&& new.editor_part().username@.len() == 0
    &&& new.editor_part().password@.len() == 0
    &&& new.editor_part().notes@.len() == 0
    &&& !new.editor_part().show
    &&& new.editor_part().color == old.editor_part().color
    &&& new.editor_part().search_line == old.editor_part().search_line
    &&& new.entries_part() == old.entries_part()
    &&& new.status_part() == old.status_part()
    &&& new.auth_part() == old.auth_part()
    &&& new.security_part() == old.security_part()
    &&& new.session_part() == old.session_part()
    &&& new.cmd_part() == old.cmd_part()
}

/// The editor opened on the entry at `idx`, its fields holding that entry's; the rest of
/// the state stays as it was.
pub open spec fn opened_editor_for(old: State, new: State, idx: usize) -> bool {
    &&& new.editor_part().editor_state == EditorState::Edit
    &&& new.editor_part().idx == Some(idx)
    &&& new.editor_part().service@ == old.entries_part()@[idx as int].service@
    &&& new.editor_part().username@ == old.entries_part()@[idx as int].username@
    &&& new.editor_part().password@ == old.entries_part()@[idx as int].password@
    &&& new.editor_part().notes@ == notes_text(old.entries_part()@[idx as int].notes)
    &&& new.entries_part() == old.entries_part()
    &&& new.status_part() == old.status_part()
    &&& new.auth_part() == old.auth_part()
    &&& new.security_part() == old.security_part()
    &&& new.session_part() == old.session_part()
    &&& new.cmd_part() == old.cmd_part()
}

/// The change-password dialog opened with its fields wiped; the rest stays as it was.
pub open spec fn opened_change_password(old: State, new: State) -> bool {
    &&& new.security_part().change_password_open
    &&& new.security_part().current@.len() == 0
    &&& new.security_part().new@.len() == 0
    &&& new.security_part().confirm@.len() == 0
    &&& new.security_part().settings_open == old.security_part().settings_open
    &&& new.security_part().auto_lock_secs == old.security_part().auto_lock_secs
    &&& new.entries_part() == old.entries_part()
    &&& new.status_part() == old.status_part()
    &&& new.auth_part() == old.auth_part()
    &&& new.editor_part() == old.editor_part()
    &&& new.session_part() == old.session_part()
    &&& new.cmd_part() == old.cmd_part()
}

/// The settings dialog opened on the idle timeout in force; the rest stays as it was.
pub open spec fn opened_settings(old: State, new: State) -> bool {
    &&& new.security_part() == (Security {
        settings_open: true,
        auto_lock_secs: old.session_part().auto_lock_secs,
        ..old.security_part()
    })
    &&& new.entries_part() == old.entries_part()
    &&& new.status_part() == old.status_part()
    &&& new.auth_part() == old.auth_part()
    &&& new.editor_part() == old.editor_part()
    &&& new.session_part() == old.session_part()
    &&& new.cmd_part() == old.cmd_part()
}

/// The key that the typed master password `master` derives with the salt at the head of the
/// storage file `data`.
pub open spec fn master_key(master: Seq<char>, data: Seq<u8>) -> Seq<u8> {
    argon2_default_key(vstd::utf8::encode_utf8(master), data.take(SALT_LEN as int))
}

/// Whether the fields of `e` come back unchanged through the editor: service, user name and
/// password are non-empty and already trimmed, and the note, if any, is too.
pub open spec fn editable_unchanged(e: Entry) -> bool {
    &&& trim_spec(e.service@) == e.service@ && e.service@.len() > 0
    &&& trim_spec(e.username@) == e.username@ && e.username@.len() > 0
    &&& trim_spec(e.password@) == e.password@ && e.password@.len() > 0
    &&& (e.notes matches Some(n) ==> (trim_spec(n@) == n@ && n@.len() > 0))
}

/// Loading an entry into the editor (`edit_data`) and taking the editor's fields back
/// (`take_edit_data`, as `update` does) gives the same fields again, for an entry whose
/// fields are trimmed and whose required fields are not empty.
pub proof fn lemma_edit_round_trip(e: Entry, m: Main, taken: Entry)
    requires
        editable_unchanged(e),
        m.service@ == e.service@,
        m.username@ == e.username@,
        m.password@ == e.password@,
        m.notes@ == notes_text(e.notes),
        entry_from_fields(taken, m),
    ensures
        !editor_incomplete(m),
        taken.service@ == e.service@,
        taken.username@ == e.username@,
        taken.password@ == e.password@,
        taken.notes is Some <==> e.notes is Some,
        notes_text(taken.notes) == notes_text(e.notes),
{
    if e.notes is None {
        assert(notes_text(e.notes) =~= Seq::<char>::empty());
        assert(trim_start_spec(m.notes@) == m.notes@);
        assert(trim_end_spec(m.notes@) == m.notes@);
        assert(is_blank(m.notes@));
    }
}

/// The last activity after a frame at `now`: `now` if there was input, else as before.
pub open spec fn last_seen(last: Option<u64>, active: bool, now: u64) -> Option<u64> {
    if active {
        Some(now)
    } else {
        last
    }
}

/// The status text after loading fails with `e`.
pub open spec fn load_failure_text(e: GuiError, shown: Seq<char>) -> bool {
    match e {
        GuiError::Core(VaultError::AesGcm(_)) => shown == error_text("Auth failed"@),
        _ => shows_error(e, shown),
    }
}

/// Whether the status text `shown` reports `e`: the error line with its message.
pub open spec fn shows_error(e: GuiError, shown: Seq<char>) -> bool {
    shown == error_text(gui_error_text(e))
}

impl State {
    /// The key material and the typed master password.
    pub closed spec fn auth_part(&self) -> Auth {
        self.auth
    }

    /// The status line.
    pub closed spec fn status_part(&self) -> Status {
        self.status
    }

    /// The entries of the unlocked vault.
    pub closed spec fn entries_part(&self) -> Entries {
        self.entries
    }

    /// The pending command.
    pub closed spec fn cmd_part(&self) -> Command {
        self.cmd
    }

    /// The idle timer.
    pub closed spec fn session_part(&self) -> Session {
        self.session
    }

    /// The fields of the security dialogs.
    pub closed spec fn security_part(&self) -> Security {
        self.security
    }

    /// The editor and search fields.
    pub closed spec fn editor_part(&self) -> Main {
        self.main
    }

    /// A locked state with nothing loaded, whose idle timeout comes from `settings`.
    pub fn new(settings: AppSettings) -> (s: State)
        ensures
            !s.status_part().unlocked(),
            s.entries_part()@.len() == 0,
            s.cmd_part()@ is None,
            s.session_part().last_activity is None,
            s.session_part().auto_lock_secs == settings.auto_lock_secs,
            s.status_part().text() == locked_text(),
            s.status_part().tint() == Color::Transparent,
            s.auth_part().master_text().len() == 0,
            s.auth_part().key_bytes() == Seq::new(32, |i: int| 0u8),
            s.auth_part().salt_bytes() == Seq::new(16, |i: int| 0u8),
            !s.security_part().change_password_open,
            !s.security_part().settings_open,
            s.security_part().current@.len() == 0,
            s.security_part().new@.len() == 0,
            s.security_part().confirm@.len() == 0,
            s.security_part().auto_lock_secs == 0,
            s.editor_part().idx is None,
            s.editor_part().service@.len() == 0,
            s.editor_part().username@.len() == 0,
            s.editor_part().password@.len() == 0,
            s.editor_part().notes@.len() == 0,
            !s.editor_part().show,
            s.editor_part().color == Color::White,
            s.editor_part().editor_state == EditorState::Close,
            s.editor_part().search_line@.len() == 0,
    {
        State {
            auth: Auth::default(),
            status: Status::default(),
            entries: Entries::default(),
            cmd: Command::default(),
            session: Session::new(settings),
            security: Security::default(),
            main: Main::default(),
        }
    }

    /// First half of unlocking: derives the key from the typed master password (with the
    /// salt of `stored`, the storage file if there is one, else a fresh salt) and opens the
    /// file with it, giving back the JSON of its entries (`None` when there is no file).
    /// The outcome, once parsed, goes to `load`.
    pub fn open_vault(&mut self, stored: Option<&[u8]>) -> (r: Result<Option<Vec<u8>>, GuiError>)
        ensures
            final(self).status_part() == old(self).status_part(),
            final(self).entries_part() == old(self).entries_part(),
            final(self).session_part() == old(self).session_part(),
            stored is None ==> (r is Ok <==> encode_ok(old(self).auth_part().master_text())),
            stored is None && r is Ok ==> r == Ok::<Option<Vec<u8>>, GuiError>(None),
            r is Ok ==> accepts(
                final(self).auth_part().key_bytes(),
                final(self).auth_part().salt_bytes(),
                old(self).auth_part().master_text(),
            ),
            stored matches Some(d) ==> (r is Ok <==> (stored_salt(d@) is Some && encode_ok(
                old(self).auth_part().master_text(),
            ) && stored_plaintext(d@, master_key(old(self).auth_part().master_text(), d@))
                is Some)),
            stored matches Some(d) ==> (r matches Ok(p) ==> (p matches Some(p) && Some(p@)
                == stored_plaintext(d@, master_key(old(self).auth_part().master_text(), d@)))),
            stored matches Some(d) ==> (stored_salt(d@) is Some && encode_ok(
                old(self).auth_part().master_text(),
            ) ==> (final(self).auth_part().key_bytes() == master_key(
                old(self).auth_part().master_text(),
                d@,
            ) && Some(final(self).auth_part().salt_bytes()) == stored_salt(d@))),
            stored matches Some(d) ==> (stored_salt(d@) is None ==> (r matches Err(
                GuiError::Core(VaultError::Storage(m)),
            ) && m@ == short_storage_message(d@.len()) && final(self).auth_part().key_bytes() == old(self).auth_part().key_bytes() && final(self).auth_part().salt_bytes() == old(self).auth_part().salt_bytes()
                && final(self).auth_part().master_text() == old(self).auth_part().master_text())),
            (stored matches Some(d) ==> stored_salt(d@) is Some) ==> (final(self).auth_part().master_text().len() == 0 && (!encode_ok(
                old(self).auth_part().master_text(),
            ) ==> r == Err::<Option<Vec<u8>>, GuiError>(
                GuiError::Core(VaultError::Argon2(Argon2Failure::PwdTooLong)),
            ))),
            stored matches Some(d) ==> (stored_salt(d@) is Some && encode_ok(
                old(self).auth_part().master_text(),
            ) && r is Err ==> (r->Err_0 matches GuiError::Core(e) && (e is ShortCiphertext
                || e is AesGcm))),
    {
        self.auth.unlock(stored)?;
        match stored {
            None => Ok(None),
            Some(d) => match load_entries(d, self.auth.key()) {
                Ok(p) => Ok(Some(p)),
                Err(e) => Err(GuiError::Core(e)),
            },
        }
    }

    /// Second half of unlocking: takes the entries read from the vault, or the failure of
    /// reading them. On success the vault is unlocked and the session starts at `now`; on
    /// failure the key material is wiped and the status line says why ("Auth failed" when
    /// the key did not open the file).
    pub fn load(&mut self, outcome: Result<Vec<Entry>, GuiError>, now: u64)
        ensures
            outcome matches Ok(list) ==> {
                &&& final(self).entries_part()@ == list@
                &&& final(self).status_part().unlocked()
                &&& final(self).status_part().text() == unlocked_text()
                &&& final(self).session_part() == (Session {
                    last_activity: Some(now),
                    ..old(self).session_part()
                })
                &&& final(self).security_part() == (Security {
                    auto_lock_secs: old(self).session_part().auto_lock_secs,
                    ..old(self).security_part()
                })
                &&& final(self).security_part().auto_lock_secs
                    == final(self).session_part().auto_lock_secs
                &&& final(self).auth_part() == old(self).auth_part()
            },
            outcome matches Err(e) ==> {
                &&& final(self).status_part().unlocked() == old(self).status_part().unlocked()
                &&& load_failure_text(e, final(self).status_part().text())
                &&& final(self).auth_part().key_bytes() == Seq::new(32, |i: int| 0u8)
                &&& final(self).auth_part().salt_bytes() == Seq::new(16, |i: int| 0u8)
                &&& final(self).auth_part().master_text().len() == 0
                &&& final(self).entries_part() == old(self).entries_part()
                &&& final(self).session_part() == old(self).session_part()
                &&& final(self).security_part() == old(self).security_part()
            },
            final(self).editor_part() == old(self).editor_part(),
            final(self).cmd_part() == old(self).cmd_part(),
    {
        match outcome {
            Ok(list) => {
                self.entries.clear();
                self.entries = Entries::from_vec(list);
                self.status.unlock();
                self.session.touch(now);
                self.security.auto_lock_secs = self.session.auto_lock_secs();
            },
            Err(GuiError::Core(VaultError::AesGcm(_))) => {
                self.auth.clear();
                self.status.error(String::from_str("Auth failed"));
            },
            Err(e) => {
                self.auth.clear();
                let m = e.message();
                let ghost shown = m@;
                self.status.error(m);
                assert(self.status.text() == error_text(shown));
            },
        }
    }

    /// Locks the vault: wipes the key, the typed passwords and the editor, drops the
    /// entries, closes the dialogs and forgets the last activity.
    pub fn lock_session(&mut self)
        ensures
            locked_after(*old(self), *final(self)),
    {
        self.auth.clear();
        self.entries.clear();
        self.main.reset_editor();
        self.security.clear_password_fields();
        self.security.change_password_open = false;
        self.security.settings_open = false;
        self.session.last_activity = None;
        self.status.lock();
    }

    /// Accounts for one frame of user input at `now` (`active` tells whether there was
    /// any): activity restarts the idle timer, and a session idle for its timeout locks.
    /// A locked vault is left alone.
    pub fn register_activity(&mut self, active: bool, now: u64)
        ensures
            !old(self).status_part().unlocked() ==> *final(self) == *old(self),
            old(self).status_part().unlocked() && due_to_lock(
                last_seen(old(self).session_part().last_activity, active, now),
                old(self).session_part().auto_lock_secs,
                now,
            ) ==> locked_after(*old(self), *final(self)),
            old(self).status_part().unlocked() && !due_to_lock(
                last_seen(old(self).session_part().last_activity, active, now),
                old(self).session_part().auto_lock_secs,
                now,
            ) ==> {
                &&& final(self).session_part() == (Session {
                    last_activity: last_seen(old(self).session_part().last_activity, active, now),
                    ..old(self).session_part()
                })
                &&& final(self).status_part() == old(self).status_part()
                &&& final(self).entries_part() == old(self).entries_part()
                &&& final(self).auth_part() == old(self).auth_part()
                &&& final(self).cmd_part() == old(self).cmd_part()
                &&& final(self).security_part() == old(self).security_part()
                &&& final(self).editor_part() == old(self).editor_part()
            },
    {
        if self.is_locked() {
            return;
        }
        if active {
            self.session.touch(now);
        }
        if self.session.should_lock(now) {
            self.lock_session();
        }
    }

    /// Prepares the change of master password typed in the dialog: the new password and
    /// its confirmation must match, neither the current nor the new one may be blank, and
    /// the current one must open the vault. `plaintext` is the JSON of the entries, to be
    /// re-sealed under the new key. Nothing changes until the change is committed with
    /// `finish_master_password_change`, after its file is written.
    pub fn change_master_password(&self, plaintext: &[u8]) -> (r: Result<MasterPasswordChange, GuiError>)
        ensures
            r is Ok <==> (self.security_part().new@ == self.security_part().confirm@ && !is_blank(
                self.security_part().current@,
            ) && !is_blank(self.security_part().new@) && accepts(
                self.auth_part().key_bytes(),
                self.auth_part().salt_bytes(),
                self.security_part().current@,
            ) && encode_ok(self.security_part().new@) && plaintext@.len() <= P_MAX),
            r matches Ok(c) ==> is_storage_file(c.file@, plaintext@, c.key@, c.salt@),
            self.security_part().new@ != self.security_part().confirm@ ==> (r is Err
                && r->Err_0 is PasswordMismatch),
            self.security_part().new@ == self.security_part().confirm@ && (is_blank(
                self.security_part().current@,
            ) || is_blank(self.security_part().new@)) ==> (r is Err && r->Err_0 is EmptyData),
            r matches Ok(c) ==> {
                &&& self.security_part().new@ == self.security_part().confirm@
                &&& !is_blank(self.security_part().current@)
                &&& !is_blank(self.security_part().new@)
                &&& accepts(
                    self.auth_part().key_bytes(),
                    self.auth_part().salt_bytes(),
                    self.security_part().current@,
                )
                &&& accepts(c.key@, c.salt@, self.security_part().new@)
            },
    {
        if self.security.new != self.security.confirm {
            return Err(GuiError::PasswordMismatch);
        }
        if blank(self.security.current.as_str()) || blank(self.security.new.as_str()) {
            return Err(GuiError::EmptyData);
        }
        self.auth.change_master_password(
            self.security.current.as_str(),
            self.security.new.as_str(),
            plaintext,
        )
    }

    /// Commits a master password change whose storage file was written: installs the new
    /// key and salt, wipes the dialog's fields, closes it and says so.
    pub fn finish_master_password_change(&mut self, change: MasterPasswordChange)
        ensures
            final(self).auth_part().key_bytes() == change.key@,
            final(self).auth_part().salt_bytes() == change.salt@,
            final(self).security_part().current@.len() == 0,
            final(self).security_part().new@.len() == 0,
            final(self).security_part().confirm@.len() == 0,
            !final(self).security_part().change_password_open,
            final(self).status_part().text() == message_line(
                "Master password changed, salt rotated"@,
            ),
            final(self).status_part().tint() == Color::Green,
            final(self).status_part().unlocked() == old(self).status_part().unlocked(),
            final(self).auth_part().master_text() == old(self).auth_part().master_text(),
            final(self).security_part().settings_open == old(self).security_part().settings_open,
            final(self).security_part().auto_lock_secs == old(self).security_part().auto_lock_secs,
            final(self).entries_part() == old(self).entries_part(),
            final(self).cmd_part() == old(self).cmd_part(),
            final(self).session_part() == old(self).session_part(),
            final(self).editor_part() == old(self).editor_part(),
    {
        self.auth.install(change);
        self.security.clear_password_fields();
        self.security.change_password_open = false;
        self.status.message(String::from_str("Master password changed, salt rotated"));
    }

    /// Applies the timeout chosen in the settings dialog, clamped to 60..=3600 seconds,
    /// and gives back the settings to persist; `settings_saved` takes the outcome.
    pub fn save_settings(&mut self) -> (saved: AppSettings)
        ensures
            final(self).security_part().auto_lock_secs == clamp_timeout(
                old(self).security_part().auto_lock_secs,
            ),
            final(self).session_part().auto_lock_secs == clamp_timeout(
                old(self).security_part().auto_lock_secs,
            ),
            saved.auto_lock_secs == clamp_timeout(old(self).security_part().auto_lock_secs),
            final(self).security_part() == (Security {
                auto_lock_secs: clamp_timeout(old(self).security_part().auto_lock_secs),
                ..old(self).security_part()
            }),
            final(self).session_part() == (Session {
                auto_lock_secs: clamp_timeout(old(self).security_part().auto_lock_secs),
                ..old(self).session_part()
            }),
            final(self).entries_part() == old(self).entries_part(),
            final(self).auth_part() == old(self).auth_part(),
            final(self).status_part() == old(self).status_part(),
            final(self).editor_part() == old(self).editor_part(),
            final(self).cmd_part() == old(self).cmd_part(),
    {
        let secs = self.security.auto_lock_secs;
        let t = if secs < 60 {
            60
        } else if secs > 3600 {
            3600
        } else {
            secs
        };
        self.security.auto_lock_secs = t;
        self.session.set_auto_lock_secs(t)
    }

    /// Reports the outcome of persisting the settings: on success the dialog closes and
    /// the status line gives the timeout in whole minutes.
    pub fn settings_saved(&mut self, r: Result<(), GuiError>)
        ensures
            r is Ok ==> (!final(self).security_part().settings_open && final(self).status_part().text() == message_line(
                "Auto-lock timeout: "@ + decimal((old(self).session_part().auto_lock_secs / 60) as nat)
                    + " min"@,
            )),
            r is Ok ==> final(self).security_part() == (Security {
                settings_open: false,
                ..old(self).security_part()
            }),
            r is Err ==> final(self).security_part() == old(self).security_part(),
            r matches Err(e) ==> shows_error(e, final(self).status_part().text()),
            final(self).status_part().unlocked() == old(self).status_part().unlocked(),
            final(self).session_part() == old(self).session_part(),
            final(self).entries_part() == old(self).entries_part(),
            final(self).auth_part() == old(self).auth_part(),
            final(self).editor_part() == old(self).editor_part(),
            final(self).cmd_part() == old(self).cmd_part(),
    {
        match r {
            Ok(()) => {
                self.security.settings_open = false;
                let mut m = String::from_str("Auto-lock timeout: ");
                append_decimal(&mut m, self.session.auto_lock_secs() / 60);
                m.append(" min");
                self.status.message(m);
            },
            Err(e) => {
                let m = e.message();
                let ghost shown = m@;
                self.status.error(m);
                assert(self.status.text() == error_text(shown));
            },
        }
    }

    /// Takes the editor's fields into a new entry appended to the vault. Fails, changing
    /// nothing, when a required field is blank. Persisting is the caller's.
    pub fn add(&mut self) -> (r: Result<(), GuiError>)
        ensures
            editor_incomplete(old(self).editor_part()) ==> (r is Err && r->Err_0 is EmptyData
                && *final(self) == *old(self)),
            !editor_incomplete(old(self).editor_part()) ==> {
                &&& r is Ok
                &&& final(self).entries_part()@.len() == old(self).entries_part()@.len() + 1
                &&& final(self).entries_part()@.drop_last() == old(self).entries_part()@
                &&& entry_from_fields(final(self).entries_part()@.last(), old(self).editor_part())
                &&& final(self).entries_part()@.last().password@.len() > 0
                &&& editor_after_take(old(self).editor_part(), final(self).editor_part())
            },
            final(self).status_part() == old(self).status_part(),
            final(self).auth_part() == old(self).auth_part(),
            final(self).cmd_part() == old(self).cmd_part(),
            final(self).session_part() == old(self).session_part(),
            final(self).security_part() == old(self).security_part(),
    {
        let (_, e) = self.main.take_edit_data()?;
        self.entries.add(e);
        Ok(())
    }

    /// Takes the editor's fields into an entry that replaces the one being edited, if an
    /// entry is being edited; says whether one was replaced. Fails, changing nothing, when a
    /// required field is blank. Persisting is the caller's.
    pub fn update(&mut self) -> (r: Result<bool, GuiError>)
        requires
            !editor_incomplete(old(self).editor_part()) ==> (old(self).editor_part().idx matches Some(
                i,
            ) ==> i < old(self).entries_part()@.len()),
        ensures
            editor_incomplete(old(self).editor_part()) ==> (r is Err && r->Err_0 is EmptyData
                && *final(self) == *old(self)),
            !editor_incomplete(old(self).editor_part()) ==> r == Ok::<bool, GuiError>(
                old(self).editor_part().idx is Some,
            ),
            !editor_incomplete(old(self).editor_part()) ==> editor_after_take(
                old(self).editor_part(),
                final(self).editor_part(),
            ),
            final(self).status_part() == old(self).status_part(),
            final(self).auth_part() == old(self).auth_part(),
            final(self).cmd_part() == old(self).cmd_part(),
            final(self).session_part() == old(self).session_part(),
            final(self).security_part() == old(self).security_part(),
            final(self).entries_part()@.len() == old(self).entries_part()@.len(),
            forall|k: int|
                0 <= k < old(self).entries_part()@.len() && Some(k as usize) != old(self).editor_part().idx ==> #[trigger] final(self).entries_part()@[k] == old(self).entries_part()@[k],
            !editor_incomplete(old(self).editor_part()) ==> (old(self).editor_part().idx matches Some(
                i,
            ) ==> entry_from_fields(final(self).entries_part()@[i as int], old(self).editor_part())),
            r is Ok ==> !editor_incomplete(old(self).editor_part()),
            forall|k: int|
                0 <= k < final(self).entries_part()@.len() && old(self).entries_part()@[k]
                    .password@.len() > 0 ==> #[trigger] final(self).entries_part()@[k].password@.len()
                    > 0,
    {
        let (idx, e) = self.main.take_edit_data()?;
        match idx {
            Some(i) => {
                self.entries.replace(i, e);
                Ok(true)
            },
            None => Ok(false),
        }
    }

    /// Removes the entry at `idx`. Persisting is the caller's.
    pub fn remove(&mut self, idx: usize)
        requires
            idx < old(self).entries_part()@.len(),
        ensures
            final(self).entries_part()@ == old(self).entries_part()@.remove(idx as int),
            final(self).status_part() == old(self).status_part(),
            final(self).auth_part() == old(self).auth_part(),
            final(self).cmd_part() == old(self).cmd_part(),
            final(self).session_part() == old(self).session_part(),
            final(self).security_part() == old(self).security_part(),
            final(self).editor_part() == old(self).editor_part(),
    {
        self.entries.remove(idx);
    }

    /// Reports the outcome of writing the vault after a change.
    pub fn report_save(&mut self, r: Result<(), GuiError>)
        ensures
            r is Ok ==> final(self).status_part().text() == message_line(
                "The storage has been updated"@,
            ),
            r is Err ==> final(self).status_part().tint() == Color::Red,
            r is Ok ==> final(self).status_part().tint() == Color::Green,
            r matches Err(e) ==> shows_error(e, final(self).status_part().text()),
            final(self).status_part().unlocked() == old(self).status_part().unlocked(),
            final(self).entries_part() == old(self).entries_part(),
            final(self).auth_part() == old(self).auth_part(),
            final(self).cmd_part() == old(self).cmd_part(),
            final(self).session_part() == old(self).session_part(),
            final(self).security_part() == old(self).security_part(),
            final(self).editor_part() == old(self).editor_part(),
    {
        match r {
            Ok(()) => self.status.message(String::from_str("The storage has been updated")),
            Err(e) => {
                let m = e.message();
                let ghost shown = m@;
                self.status.error(m);
                assert(self.status.text() == error_text(shown));
            },
        }
    }

    /// Reports the outcome of writing the vault after a removal.
    pub fn report_removal(&mut self, r: Result<(), GuiError>)
        ensures
            r is Ok ==> final(self).status_part().text() == message_line("Data deleted"@),
            r is Err ==> final(self).status_part().tint() == Color::Red,
            r is Ok ==> final(self).status_part().tint() == Color::Green,
            r matches Err(e) ==> shows_error(e, final(self).status_part().text()),
            final(self).status_part().unlocked() == old(self).status_part().unlocked(),
            final(self).entries_part() == old(self).entries_part(),
            final(self).auth_part() == old(self).auth_part(),
            final(self).cmd_part() == old(self).cmd_part(),
            final(self).session_part() == old(self).session_part(),
            final(self).security_part() == old(self).security_part(),
            final(self).editor_part() == old(self).editor_part(),
    {
        match r {
            Ok(()) => self.status.message(String::from_str("Data deleted")),
            Err(e) => {
                let m = e.message();
                let ghost shown = m@;
                self.status.error(m);
                assert(self.status.text() == error_text(shown));
            },
        }
    }

    /// Reports a failure to take or store the editor's entry, painting the editor red.
    pub fn report_edit_failure(&mut self, e: GuiError)
        ensures
            final(self).status_part().tint() == Color::Red,
            shows_error(e, final(self).status_part().text()),
            final(self).status_part().unlocked() == old(self).status_part().unlocked(),
            final(self).editor_part() == (Main { color: Color::Red, ..old(self).editor_part() }),
            final(self).entries_part() == old(self).entries_part(),
            final(self).auth_part() == old(self).auth_part(),
            final(self).cmd_part() == old(self).cmd_part(),
            final(self).session_part() == old(self).session_part(),
            final(self).security_part() == old(self).security_part(),
    {
        let m = e.message();
        let ghost shown = m@;
        self.status.error(m);
        assert(self.status.text() == error_text(shown));
        self.main.err_color();
    }

    /// A fresh random password for the editor.
    pub fn generate_password(&self) -> (r: String)
        ensures
            r@.len() == GENERATED_PASSWORD_LEN,
            forall|i: int| 0 <= i < r@.len() ==> password_alphabet().contains(#[trigger] r@[i]),
    {
        generate_password(GENERATED_PASSWORD_LEN)
    }

    /// Takes the pending command.
    pub fn take_cmd(&mut self) -> (r: Option<Cmd>)
        ensures
            r == old(self).cmd_part()@,
            final(self).cmd_part()@ is None,
    {
        self.cmd.take()
    }

    /// Asks for `cmd`, unless a command is already pending.
    pub fn set_cmd(&mut self, cmd: Cmd)
        ensures
            final(self).cmd_part()@ == after_set(old(self).cmd_part()@, cmd),
    {
        self.cmd.set(cmd);
    }

    /// Loads the entry at `idx` into the editor.
    pub fn edit_data(&mut self, idx: usize)
        requires
            idx < old(self).entries_part()@.len(),
        ensures
            final(self).editor_part().idx == Some(idx),
            final(self).editor_part().service@ == old(self).entries_part()@[idx as int].service@,
            final(self).editor_part().username@ == old(self).entries_part()@[idx as int].username@,
            final(self).editor_part().password@ == old(self).entries_part()@[idx as int].password@,
            final(self).editor_part().notes@ == notes_text(old(self).entries_part()@[idx as int].notes),
            final(self).editor_part().show == old(self).editor_part().show,
            final(self).editor_part().color == old(self).editor_part().color,
            final(self).editor_part().editor_state == old(self).editor_part().editor_state,
            final(self).editor_part().search_line == old(self).editor_part().search_line,
            final(self).entries_part() == old(self).entries_part(),
            final(self).status_part() == old(self).status_part(),
            final(self).auth_part() == old(self).auth_part(),
            final(self).cmd_part() == old(self).cmd_part(),
            final(self).session_part() == old(self).session_part(),
            final(self).security_part() == old(self).security_part(),
    {
        self.main.clear_editor_secrets();
        let entry = self.entries.get(idx);
        let password = entry.password.clone();
        let service = entry.service.clone();
        let username = entry.username.clone();
        let notes = match &entry.notes {
            Some(n) => n.clone(),
            None => String::new(),
        };
        self.main.idx = Some(idx);
        self.main.password = password;
        self.main.service = service;
        self.main.username = username;
        self.main.notes = notes;
    }

    /// The editor's Save button: asks to add the new entry, or to store the edited one and
    /// close the editor; a closed editor asks for nothing.
    pub fn request_save(&mut self)
        ensures
            old(self).editor_part().editor_state == EditorState::New ==> (final(self).cmd_part()@
                == after_set(old(self).cmd_part()@, Cmd::NewEntity) && final(self).editor_part()
                == old(self).editor_part()),
            old(self).editor_part().editor_state == EditorState::Edit ==> (final(self).cmd_part()@
                == after_set(old(self).cmd_part()@, Cmd::UpdateEntity) && final(self).editor_part()
                == (Main { editor_state: EditorState::Close, ..old(self).editor_part() })),
            old(self).editor_part().editor_state == EditorState::Close ==> (final(self).cmd_part()
                == old(self).cmd_part() && final(self).editor_part() == old(self).editor_part()),
            final(self).entries_part() == old(self).entries_part(),
            final(self).status_part() == old(self).status_part(),
            final(self).auth_part() == old(self).auth_part(),
            final(self).security_part() == old(self).security_part(),
            final(self).session_part() == old(self).session_part(),
    {
        match self.main.editor_state {
            EditorState::New => self.cmd.set(Cmd::NewEntity),
            EditorState::Edit => {
                self.cmd.set(Cmd::UpdateEntity);
                self.main.editor_state = EditorState::Close;
            },
            EditorState::Close => {},
        }
    }

    /// Runs the state's own part of `cmd`: opening the editor or a dialog, or locking.
    /// What is left to the caller (writing the vault or a file) comes back, and then the
    /// state is untouched.
    pub fn run_cmd(&mut self, cmd: Cmd) -> (r: Option<Effect>)
        requires
            cmd matches Cmd::EditorUpdate(idx) ==> idx < old(self).entries_part()@.len(),
        ensures
            r == effect_of(cmd),
            cmd matches Cmd::RemoveEntry(idx) ==> r == Some(Effect::Remove(idx)),
            r matches Some(Effect::Remove(idx)) ==> cmd == Cmd::RemoveEntry(idx),
            r is Some ==> *final(self) == *old(self),
            cmd is EditorNew ==> opened_new_editor(*old(self), *final(self)),
            cmd matches Cmd::EditorUpdate(idx) ==> opened_editor_for(*old(self), *final(self), idx),
            cmd is Lock ==> locked_after(*old(self), *final(self)),
            cmd is OpenChangePassword ==> opened_change_password(*old(self), *final(self)),
            cmd is OpenSettings ==> opened_settings(*old(self), *final(self)),
    {
        match cmd {
            Cmd::NewEntity => Some(Effect::Add),
            Cmd::UpdateEntity => Some(Effect::Update),
            Cmd::RemoveEntry(idx) => Some(Effect::Remove(idx)),
            Cmd::Backup => Some(Effect::Backup),
            Cmd::Export => Some(Effect::Export),
            Cmd::EditorNew => {
                self.open_new_editor();
                None
            },
            Cmd::EditorUpdate(idx) => {
                self.open_editor_for(idx);
                None
            },
            Cmd::Lock => {
                self.lock_session();
                None
            },
            Cmd::OpenChangePassword => {
                self.open_change_password();
                None
            },
            Cmd::OpenSettings => {
                self.open_settings();
                None
            },
        }
    }

    /// Opens the editor for a new entry, emptied.
    pub fn open_new_editor(&mut self)
        ensures
            opened_new_editor(*old(self), *final(self)),
    {
        self.main.reset_editor();
        self.main.editor_state = EditorState::New;
    }

    /// Opens the editor on the entry at `idx`.
    pub fn open_editor_for(&mut self, idx: usize)
        requires
            idx < old(self).entries_part()@.len(),
        ensures
            opened_editor_for(*old(self), *final(self), idx),
    {
        self.main.editor_state = EditorState::Edit;
        self.edit_data(idx);
    }

    /// Opens the change-password dialog with its fields wiped.
    pub fn open_change_password(&mut self)
        ensures
            opened_change_password(*old(self), *final(self)),
    {
        self.security.change_password_open = true;
        self.security.clear_password_fields();
    }

    /// Opens the settings dialog on the idle timeout in force.
    pub fn open_settings(&mut self)
        ensures
            opened_settings(*old(self), *final(self)),
    {
        self.security.settings_open = true;
        self.security.auto_lock_secs = self.session.auto_lock_secs();
    }

    /// The master password field of the unlock screen.
    pub fn master_mut(&mut self) -> (r: &mut String)
        ensures
            r@ == old(self).auth_part().master_text(),
            final(self).auth_part().master_text() == final(r)@,
            final(self).auth_part().key_bytes() == old(self).auth_part().key_bytes(),
            final(self).auth_part().salt_bytes() == old(self).auth_part().salt_bytes(),
            final(self).entries_part() == old(self).entries_part(),
            final(self).status_part() == old(self).status_part(),
            final(self).session_part() == old(self).session_part(),
            final(self).cmd_part() == old(self).cmd_part(),
            final(self).security_part() == old(self).security_part(),
            final(self).editor_part() == old(self).editor_part(),
    {
        self.auth.master_mut()
    }

    /// Whether the vault is locked.
    pub fn is_locked(&self) -> (r: bool)
        ensures
            r == !self.status_part().unlocked(),
    {
        self.status.is_locked()
    }

    /// The text of the status line.
    pub fn status(&self) -> (r: String)
        ensures
            r@ == self.status_part().text(),
    {
        self.status.status()
    }

    /// The number of entries.
    pub fn len(&self) -> (r: usize)
        ensures
            r == self.entries_part()@.len(),
    {
        self.entries.len()
    }

    /// The entries.
    pub fn list(&self) -> (r: &Entries)
        ensures
            *r == self.entries_part(),
    {
        &self.entries
    }

    /// The color of the status line.
    pub fn text_color(&self) -> (r: Color)
        ensures
            r == self.status_part().tint(),
    {
        self.status.color()
    }

    /// The fields of the security dialogs.
    pub fn security_mut(&mut self) -> (r: &mut Security)
        ensures
            *r == old(self).security_part(),
            final(self).security_part() == *final(r),
            final(self).entries_part() == old(self).entries_part(),
            final(self).auth_part() == old(self).auth_part(),
            final(self).status_part() == old(self).status_part(),
            final(self).session_part() == old(self).session_part(),
            final(self).cmd_part() == old(self).cmd_part(),
            final(self).editor_part() == old(self).editor_part(),
    {
        &mut self.security
    }

    /// The editor and search fields.
    pub fn editor(&self) -> (r: &Main)
        ensures
            *r == self.editor_part(),
    {
        &self.main
    }

    /// The editor and search fields, for the user interface to type into.
    pub fn editor_mut(&mut self) -> (r: &mut Main)
        ensures
            *r == old(self).editor_part(),
            final(self).editor_part() == *final(r),
            final(self).entries_part() == old(self).entries_part(),
            final(self).auth_part() == old(self).auth_part(),
            final(self).status_part() == old(self).status_part(),
            final(self).security_part() == old(self).security_part(),
            final(self).session_part() == old(self).session_part(),
            final(self).cmd_part() == old(self).cmd_part(),
    {
        &mut self.main
    }

    /// The idle timeout in force.
    pub fn auto_lock_secs(&self) -> (r: u64)
        ensures
            r == self.session_part().auto_lock_secs,
    {
        self.session.auto_lock_secs()
    }

    /// Shows an error on the status line.
    pub fn show_error(&mut self, msg: String)
        ensures
            final(self).status_part().text() == error_text(msg@),
            final(self).status_part().tint() == Color::Red,
            final(self).status_part().unlocked() == old(self).status_part().unlocked(),
            final(self).entries_part() == old(self).entries_part(),
            final(self).auth_part() == old(self).auth_part(),
            final(self).cmd_part() == old(self).cmd_part(),
            final(self).session_part() == old(self).session_part(),
            final(self).security_part() == old(self).security_part(),
            final(self).editor_part() == old(self).editor_part(),
    {
        self.status.error(msg);
    }

    /// Shows a message on the status line.
    pub fn show_message(&mut self, msg: String)
        ensures
            final(self).status_part().text() == message_line(msg@),
            final(self).status_part().tint() == Color::Green,
            final(self).status_part().unlocked() == old(self).status_part().unlocked(),
            final(self).entries_part() == old(self).entries_part(),
            final(self).auth_part() == old(self).auth_part(),
            final(self).cmd_part() == old(self).cmd_part(),
            final(self).session_part() == old(self).session_part(),
            final(self).security_part() == old(self).security_part(),
            final(self).editor_part() == old(self).editor_part(),
    {
        self.status.message(msg);
    }

    /// The vault key.
    pub fn key(&self) -> (r: &[u8])
        ensures
            r@ == self.auth_part().key_bytes(),
    {
        self.auth.key()
    }

    /// The salt of the vault key.
    pub fn salt(&self) -> (r: &[u8])
        ensures
            r@ == self.auth_part().salt_bytes(),
    {
        self.auth.salt()
    }
}

/// Whether Argon2 accepts a typed password of these characters (its UTF-8 form is at most
/// `0xFFFF_FFFF` bytes).
pub open spec fn encode_ok(password: Seq<char>) -> bool {
    vstd::utf8::encode_utf8(password).len() <= crate::gui::auth::MAX_PASSWORD_BYTES
}

} // verus!
