//! The key of the unlocked vault, the salt it was derived with, and the master password
//! field of the unlock screen.
use vstd::prelude::*;
use vstd::utf8::encode_utf8;
use crate::gui::error::GuiError;
use crate::vault::crypto::{argon2_default_key, derive_key, P_MAX};
use crate::vault::storage::{generate_salt, is_storage_file, save_entries, short_storage_message, stored_salt, try_get_salt};
use crate::vault::error::{Argon2Failure, VaultError};
use crate::wipe::{zeroize_array, zeroize_string};

verus! {

/// Longest password, in UTF-8 bytes, Argon2 accepts.
pub const MAX_PASSWORD_BYTES: u64 = 0xFFFF_FFFF;

/// Whether `password` opens a vault whose key is `key` under `salt`: Argon2 accepts it
/// and derives that very key from it.
pub open spec fn accepts(key: Seq<u8>, salt: Seq<u8>, password: Seq<char>) -> bool {
    &&& encode_utf8(password).len() <= MAX_PASSWORD_BYTES
    &&& argon2_default_key(encode_utf8(password), salt) == key
}

/// A new key and salt for a new master password, with the storage file re-sealed under
/// them; it takes effect once the file is written and it is installed.
pub struct MasterPasswordChange {
    pub key: [u8; 32],
    pub salt: [u8; 16],
    /// The storage file to write before installing the new key.
    pub file: Vec<u8>,
}

/// The key material of the unlocked vault and the typed master password.
pub struct Auth {
    key: [u8; 32],
    salt: [u8; 16],
    master: String,
}

/// After a master password change is installed, the new password verifies: `auth` holds
/// the key and salt of a change that `change_master_password` made for `new`, so
/// `verify_master_password(new)` succeeds.
pub proof fn lemma_new_master_password_verifies(auth: Auth, change: MasterPasswordChange, new: Seq<char>)
    requires
        accepts(change.key@, change.salt@, new),
        auth.key_bytes() == change.key@,
        auth.salt_bytes() == change.salt@,
    ensures
        accepts(auth.key_bytes(), auth.salt_bytes(), new),
{
}

impl Default for Auth {
    fn default() -> (a: Auth)
        ensures
            a.key_bytes() == Seq::new(32, |i: int| 0u8),
            a.salt_bytes() == Seq::new(16, |i: int| 0u8),
            a.master_text().len() == 0,
    {
        let a = Auth { key: [0u8; 32], salt: [0u8; 16], master: String::new() };
        assert(a.key@ =~= Seq::new(32, |i: int| 0u8));
        assert(a.salt@ =~= Seq::new(16, |i: int| 0u8));
        a
    }
}

impl Auth {
    /// The vault key.
    pub closed spec fn key_bytes(&self) -> Seq<u8> {
        self.key@
    }

    /// The key is always 32 bytes and the salt 16.
    pub proof fn lemma_key_material_lengths(&self)
        ensures
            self.key_bytes().len() == 32,
            self.salt_bytes().len() == 16,
    {
    }

    /// The salt the key was derived with.
    pub closed spec fn salt_bytes(&self) -> Seq<u8> {
        self.salt@
    }

    /// The master password typed on the unlock screen.
    pub closed spec fn master_text(&self) -> Seq<char> {
        self.master@
    }

    /// An unlocked state holding `key` and `salt`, with an empty master password field.
    pub fn from_parts(key: [u8; 32], salt: [u8; 16]) -> (a: Auth)
        ensures
            a.key_bytes() == key@,
            a.salt_bytes() == salt@,
            a.master_text().len() == 0,
    {
        Auth { key, salt, master: String::new() }
    }

    /// Derives the vault key from the typed master password. The salt is read from the
    /// storage file when there is one (`stored`), else drawn fresh. The typed password is
    /// consumed (the field is emptied) once the salt is known.
    pub fn unlock(&mut self, stored: Option<&[u8]>) -> (r: Result<(), GuiError>)
        ensures
            stored matches Some(d) ==> (stored_salt(d@) is None ==> (r matches Err(GuiError::Core(
                VaultError::Storage(m),
            )) && m@ == short_storage_message(d@.len()) && final(self).key_bytes()
                == old(self).key_bytes() && final(self).salt_bytes() == old(self).salt_bytes()
                && final(self).master_text() == old(self).master_text())),
            (stored matches Some(d) ==> stored_salt(d@) is Some) ==> {
                &&& final(self).master_text().len() == 0
                &&& (r is Ok <==> encode_utf8(old(self).master_text()).len() <= MAX_PASSWORD_BYTES)
                &&& r is Ok ==> accepts(
                    final(self).key_bytes(),
                    final(self).salt_bytes(),
                    old(self).master_text(),
                )
                &&& r is Ok ==> (stored matches Some(d) ==> stored_salt(d@) == Some(
                    final(self).salt_bytes(),
                ))
                &&& r is Err ==> (r->Err_0 == GuiError::Core(VaultError::Argon2(Argon2Failure::PwdTooLong))
                    && final(self).key_bytes() == old(self).key_bytes()
                    && final(self).salt_bytes() == old(self).salt_bytes())
            },
    {
        let salt = match stored {
            Some(d) => match try_get_salt(d) {
                Ok(s) => s,
                Err(e) => return Err(GuiError::Core(e)),
            },
            None => generate_salt(),
        };
        let mut master = String::new();
        std::mem::swap(&mut master, &mut self.master);
        let derived = derive_key(master.as_str(), salt.as_slice());
        zeroize_string(&mut master);
        let key = match derived {
            Ok(k) => k,
            Err(e) => return Err(GuiError::Core(e)),
        };
        self.key = key;
        self.salt = salt;
        Ok(())
    }

    /// Checks `password` against the vault key.
    pub fn verify_master_password(&self, password: &str) -> (r: Result<(), GuiError>)
        ensures
            r is Ok <==> accepts(self.key_bytes(), self.salt_bytes(), password@),
            encode_utf8(password@).len() > MAX_PASSWORD_BYTES ==> (r matches Err(GuiError::Core(e))
                && e is Argon2),
            encode_utf8(password@).len() <= MAX_PASSWORD_BYTES && r is Err ==> r->Err_0 is InvalidMasterPassword,
    {
        let derived = match derive_key(password, self.salt.as_slice()) {
            Ok(k) => k,
            Err(e) => return Err(GuiError::Core(e)),
        };
        let mut i: usize = 0;
        while i < 32
            invariant
                i <= 32,
                derived@.len() == 32,
                self.key@.len() == 32,
                derived@ == argon2_default_key(encode_utf8(password@), self.salt@),
                encode_utf8(password@).len() <= MAX_PASSWORD_BYTES,
                forall|k: int| 0 <= k < i ==> derived@[k] == self.key@[k],
            decreases 32 - i,
        {
            if derived[i] != self.key[i] {
                assert(derived@ != self.key@);
                return Err(GuiError::InvalidMasterPassword);
            }
            i = i + 1;
        }
        assert(derived@ =~= self.key@);
        Ok(())
    }

    /// Prepares a change of master password: checks `current`, draws a fresh salt,
    /// derives the key of `new` under it and seals `plaintext` (the JSON of the entries)
    /// into a new storage file. Nothing changes until the result is installed.
    pub fn change_master_password(&self, current: &str, new: &str, plaintext: &[u8]) -> (r:
        Result<MasterPasswordChange, GuiError>)
        ensures
            r is Ok <==> (accepts(self.key_bytes(), self.salt_bytes(), current@) && encode_utf8(
                new@,
            ).len() <= MAX_PASSWORD_BYTES && plaintext@.len() <= P_MAX),
            !accepts(self.key_bytes(), self.salt_bytes(), current@) && encode_utf8(current@).len()
                <= MAX_PASSWORD_BYTES ==> (r is Err && r->Err_0 is InvalidMasterPassword),
            r matches Ok(c) ==> {
                &&& accepts(c.key@, c.salt@, new@)
                &&& is_storage_file(c.file@, plaintext@, c.key@, c.salt@)
            },
    {
        self.verify_master_password(current)?;
        let new_salt = generate_salt();
        let new_key = match derive_key(new, new_salt.as_slice()) {
            Ok(k) => k,
            Err(e) => return Err(GuiError::Core(e)),
        };
        let file = match save_entries(plaintext, new_key.as_slice(), new_salt.as_slice()) {
            Ok(f) => f,
            Err(e) => return Err(GuiError::Core(e)),
        };
        Ok(MasterPasswordChange { key: new_key, salt: new_salt, file })
    }

    /// Installs the key and salt of a master password change whose file was written.
    pub fn install(&mut self, change: MasterPasswordChange)
        ensures
            final(self).key_bytes() == change.key@,
            final(self).salt_bytes() == change.salt@,
            final(self).master_text() == old(self).master_text(),
    {
        self.key = change.key;
        self.salt = change.salt;
    }

    /// Wipes the typed password, the key and the salt in place.
    pub fn clear(&mut self)
        ensures
            final(self).master_text().len() == 0,
            final(self).key_bytes() == Seq::new(32, |i: int| 0u8),
            final(self).salt_bytes() == Seq::new(16, |i: int| 0u8),
    {
        zeroize_string(&mut self.master);
        zeroize_array(&mut self.key);
        zeroize_array(&mut self.salt);
    }

    /// The vault key.
    pub fn key(&self) -> (r: &[u8])
        ensures
            r@ == self.key_bytes(),
            r@.len() == 32,
    {
        self.key.as_slice()
    }

    /// The salt of the vault key.
    pub fn salt(&self) -> (r: &[u8])
        ensures
            r@ == self.salt_bytes(),
    {
        self.salt.as_slice()
    }

    /// The master password field, for the unlock screen to type into.
    pub fn master_mut(&mut self) -> (r: &mut String)
        ensures
            r@ == old(self).master_text(),
            final(self).master_text() == final(r)@,
            final(self).key_bytes() == old(self).key_bytes(),
            final(self).salt_bytes() == old(self).salt_bytes(),
    {
        &mut self.master
    }
}

} // verus!
