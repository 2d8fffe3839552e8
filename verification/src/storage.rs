//! The vault: entries kept in one encrypted file, under a key derived from
//! the master passphrase.

use crate::armor::{base64_bytes, base64_text};
use crate::cipher::NONCE_LEN;
use crate::codec::{
    entries_room, entry_room, envelope_text, read_envelope, seal_with_nonce, sealable,
    sealed_envelope, small, text_envelope, unseal, unsealed, write_envelope,
};
use crate::error::{FormatFault, IoFault, VaultError};
use crate::kdf::{derive_key, derived_key};
use vstd::prelude::*;

verus! {

/// Length of a freshly generated salt, in bytes.
pub const SALT_LEN: usize = 16;

/// A single password entry.
#[derive(Debug)]
pub struct PasswordEntry {
    pub name: String,
    pub password: String,
    /// Decimal seconds since the epoch.
    pub created_at: String,
}

/// What an entry holds, as plain text.
pub struct EntryView {
    pub name: Seq<char>,
    pub password: Seq<char>,
    pub created_at: Seq<char>,
}

impl View for PasswordEntry {
    type V = EntryView;

    open spec fn view(&self) -> EntryView {
        EntryView { name: self.name@, password: self.password@, created_at: self.created_at@ }
    }
}

impl Clone for PasswordEntry {
    fn clone(&self) -> (r: PasswordEntry)
        ensures
            r@ == self@,
    {
        PasswordEntry {
            name: self.name.clone(),
            password: self.password.clone(),
            created_at: self.created_at.clone(),
        }
    }
}

/// What a list of entries holds, in order.
pub open spec fn entry_views(entries: Seq<PasswordEntry>) -> Seq<EntryView> {
    Seq::new(entries.len(), |i: int| entries[i]@)
}

/// The vault file as the filesystem presents it.
#[derive(Debug)]
pub enum VaultFile {
    /// No file exists: an empty vault.
    Missing,
    /// A file exists and cannot be read.
    Unreadable,
    /// The text of the file.
    Present(String),
}

/// Password storage manager: the place of the vault file, the key derived
/// from the master passphrase, and the salt that the key was derived with,
/// in its printable form.
pub struct Storage {
    file_path: String,
    master_key: [u8; 32],
    salt: String,
}

/// What a store holds, as plain values.
pub struct StorageView {
    pub path: Seq<char>,
    pub key: Seq<u8>,
    /// The salt of the key, base64.
    pub salt: Seq<char>,
}

impl View for Storage {
    type V = StorageView;

    closed spec fn view(&self) -> StorageView {
        StorageView { path: self.file_path@, key: self.master_key@, salt: self.salt@ }
    }
}

impl StorageView {
    /// Whether the key is the one that `passphrase` derives with the salt
    /// that the store carries.
    pub open spec fn opens_with(self, passphrase: Seq<char>) -> bool {
        base64_bytes(self.salt) matches Some(salt) && self.key == derived_key(passphrase, salt)
    }
}

/// The printable salt that opening a vault file derives the key with: the
/// stored one, `None` where there is no file and a fresh salt is drawn, or
/// the fault that stops the opening.
pub open spec fn stored_salt(file: VaultFile) -> Result<Option<Seq<char>>, VaultError> {
    match file {
        VaultFile::Missing => Ok(None),
        VaultFile::Unreadable => Err(VaultError::Io(IoFault::Read)),
        VaultFile::Present(text) => match text_envelope(text@) {
            None => Err(VaultError::Format(FormatFault::Envelope)),
            Some(envelope) => match base64_bytes(envelope.salt) {
                None => Err(VaultError::Format(FormatFault::Salt)),
                Some(salt) => Ok(Some(envelope.salt)),
            },
        },
    }
}

/// The store that a passphrase and a printable salt make for a path.
pub open spec fn store_of(path: Seq<char>, passphrase: Seq<char>, salt: Seq<char>) -> StorageView {
    StorageView { path, key: derived_key(passphrase, base64_bytes(salt)->0), salt }
}

/// The store that opening a vault file with a passphrase gives, where
/// `fresh_salt` is the salt drawn in case the file is missing; or the fault
/// that stops the opening.
pub open spec fn opened_store(
    file: VaultFile,
    path: Seq<char>,
    passphrase: Seq<char>,
    fresh_salt: Seq<u8>,
) -> Result<StorageView, VaultError> {
    match stored_salt(file) {
        Err(fault) => Err(fault),
        Ok(Some(salt)) => Ok(store_of(path, passphrase, salt)),
        Ok(None) => Ok(store_of(path, passphrase, base64_text(fresh_salt))),
    }
}

/// The entries that a vault file holds for a key, or the fault that stops
/// the loading. A missing file is an empty vault.
pub open spec fn file_entries(file: VaultFile, key: Seq<u8>) -> Result<Seq<EntryView>, VaultError> {
    match file {
        VaultFile::Missing => Ok(Seq::empty()),
        VaultFile::Unreadable => Err(VaultError::Io(IoFault::Read)),
        VaultFile::Present(text) => match text_envelope(text@) {
            None => Err(VaultError::Format(FormatFault::Envelope)),
            Some(envelope) => unsealed(envelope, key),
        },
    }
}

/// The printable salt that a rewrite stores: the one already in the file,
/// or that of the store where the file holds none.
pub open spec fn kept_salt(file: VaultFile, salt: Seq<char>) -> Seq<char> {
    match file {
        VaultFile::Present(text) => match text_envelope(text@) {
            Some(envelope) => envelope.salt,
            None => salt,
        },
        _ => salt,
    }
}

/// Whether `text` is a vault file that holds `entries` under `key`, with
/// `salt` as the printable salt: one envelope, which carries the salt and
/// opens under the key to exactly these entries.
pub open spec fn written(
    salt: Seq<char>,
    key: Seq<u8>,
    entries: Seq<EntryView>,
    text: Seq<char>,
) -> bool {
    text_envelope(text) matches Some(envelope) && envelope.salt == salt && unsealed(envelope, key)
        == Ok::<Seq<EntryView>, VaultError>(entries)
}

/// The text that a rewrite of `file` by `store` makes for `entries`, sealed
/// with `nonce`. The whole file is replaced; the salt is kept.
pub open spec fn rewrite_text(
    file: VaultFile,
    store: StorageView,
    entries: Seq<EntryView>,
    nonce: Seq<u8>,
) -> Seq<char> {
    envelope_text(sealed_envelope(entries, store.key, kept_salt(file, store.salt), nonce))
}

/// What a rewrite returns: the new text of the file, unless the entries are
/// too large to seal.
pub open spec fn rewrite_outcome(
    file: VaultFile,
    store: StorageView,
    entries: Seq<EntryView>,
    nonce: Seq<u8>,
) -> Result<Seq<char>, VaultError> {
    if sealable(entries) {
        Ok(rewrite_text(file, store, entries, nonce))
    } else {
        Err(VaultError::TooLarge)
    }
}

/// What a save of `entry` returns: a failed load fails the save; otherwise
/// the file is rewritten with the entry at the end.
pub open spec fn save_outcome(
    file: VaultFile,
    store: StorageView,
    entry: EntryView,
    nonce: Seq<u8>,
) -> Result<Seq<char>, VaultError> {
    match file_entries(file, store.key) {
        Err(fault) => Err(fault),
        Ok(entries) => rewrite_outcome(file, store, entries.push(entry), nonce),
    }
}

/// What a delete at `index` returns: a failed load fails it, an index that
/// is not that of an entry is refused; otherwise the file is rewritten
/// without the entry.
pub open spec fn delete_outcome(
    file: VaultFile,
    store: StorageView,
    index: int,
    nonce: Seq<u8>,
) -> Result<Seq<char>, VaultError> {
    match file_entries(file, store.key) {
        Err(fault) => Err(fault),
        Ok(entries) => if index >= entries.len() {
            Err(VaultError::Index)
        } else {
            rewrite_outcome(file, store, entries.remove(index), nonce)
        },
    }
}

/// What an update at `index` returns: a failed load fails it, an index that
/// is not that of an entry is refused; otherwise the file is rewritten with
/// `entry` in the place of the old one.
pub open spec fn update_outcome(
    file: VaultFile,
    store: StorageView,
    index: int,
    entry: EntryView,
    nonce: Seq<u8>,
) -> Result<Seq<char>, VaultError> {
    match file_entries(file, store.key) {
        Err(fault) => Err(fault),
        Ok(entries) => if index >= entries.len() {
            Err(VaultError::Index)
        } else {
            rewrite_outcome(file, store, entries.update(index, entry), nonce)
        },
    }
}

/// What a change of the master passphrase returns: a failed load fails it;
/// otherwise the store of the new passphrase and the fresh salt, and the
/// text of the file with the same entries sealed under the new key.
pub open spec fn rotate_outcome(
    file: VaultFile,
    store: StorageView,
    new_passphrase: Seq<char>,
    salt: Seq<u8>,
    nonce: Seq<u8>,
) -> Result<(StorageView, Seq<char>), VaultError> {
    match file_entries(file, store.key) {
        Err(fault) => Err(fault),
        Ok(entries) => if sealable(entries) {
            let rotated = store_of(store.path, new_passphrase, base64_text(salt));
            Ok(
                (
                    rotated,
                    envelope_text(sealed_envelope(entries, rotated.key, rotated.salt, nonce)),
                ),
            )
        } else {
            Err(VaultError::TooLarge)
        },
    }
}

/// A returned text, as plain values.
pub open spec fn text_result(r: Result<String, VaultError>) -> Result<Seq<char>, VaultError> {
    match r {
        Ok(text) => Ok(text@),
        Err(fault) => Err(fault),
    }
}

/// A returned store, as plain values.
pub open spec fn store_result(r: Result<Storage, VaultError>) -> Result<StorageView, VaultError> {
    match r {
        Ok(store) => Ok(store@),
        Err(fault) => Err(fault),
    }
}

/// A returned store and text, as plain values.
pub open spec fn rotation_result(r: Result<(Storage, String), VaultError>) -> Result<
    (StorageView, Seq<char>),
    VaultError,
> {
    match r {
        Ok((store, text)) => Ok((store@, text@)),
        Err(fault) => Err(fault),
    }
}

impl Storage {
    /// Opens the vault with a master passphrase.
    ///
    /// Where the file exists the key is derived with the stored salt;
    /// where it does not, with a fresh random salt of sixteen bytes, and
    /// nothing is written until the first save.
    pub fn new(file_path: String, master_password: &str, file: &VaultFile) -> (r: Result<
        Storage,
        VaultError,
    >)
        ensures
            exists|fresh_salt: Seq<u8>|
                fresh_salt.len() == SALT_LEN && store_result(r) == #[trigger] opened_store(
                    *file,
                    file_path@,
                    master_password@,
                    fresh_salt,
                ),
            r matches Ok(store) ==> store@.opens_with(master_password@),
    {
        match file {
            VaultFile::Missing => {
                let mut salt = [0u8; 16];
                crate::random::fill(&mut salt);
                let store = Storage::with_salt(file_path, master_password, &salt);
                assert(store_result(Ok(store)) == opened_store(
                    *file,
                    file_path@,
                    master_password@,
                    salt@,
                ));
                Ok(store)
            },
            VaultFile::Unreadable => {
                let r = Err(VaultError::Io(IoFault::Read));
                assert(store_result(r) == opened_store(
                    *file,
                    file_path@,
                    master_password@,
                    Seq::new(16, |i: int| 0u8),
                ));
                r
            },
            VaultFile::Present(text) => {
                let r = match read_envelope(text.as_str()) {
                    Some(envelope) => match crate::armor::decode(envelope.salt.as_str()) {
                        Ok(salt) => {
                            let master_key = derive_key(master_password, salt.as_slice());
                            Ok(Storage { file_path, master_key, salt: envelope.salt })
                        },
                        Err(_) => Err(VaultError::Format(FormatFault::Salt)),
                    },
                    None => Err(VaultError::Format(FormatFault::Envelope)),
                };
                assert(store_result(r) == opened_store(
                    *file,
                    file_path@,
                    master_password@,
                    Seq::new(16, |i: int| 0u8),
                ));
                r
            },
        }
    }

    /// The store of a passphrase and a fresh salt.
    pub fn with_salt(file_path: String, master_password: &str, salt: &[u8; 16]) -> (store: Storage)
        ensures
            store@ == store_of(file_path@, master_password@, base64_text(salt@)),
            store@.opens_with(master_password@),
    {
        let master_key = derive_key(master_password, salt.as_slice());
        Storage { file_path, master_key, salt: crate::armor::encode(salt.as_slice()) }
    }

    /// Loads all entries from the vault file.
    ///
    /// A tag that does not verify is reported as an authentication fault:
    /// the sign of a wrong master passphrase.
    pub fn load(&self, file: &VaultFile) -> (r: Result<Vec<PasswordEntry>, VaultError>)
        ensures
            r matches Ok(entries) ==> file_entries(*file, self@.key) == Ok::<
                Seq<EntryView>,
                VaultError,
            >(entry_views(entries@)),
            r matches Err(fault) ==> file_entries(*file, self@.key) == Err::<
                Seq<EntryView>,
                VaultError,
            >(fault),
    {
        match file {
            VaultFile::Missing => {
                let entries: Vec<PasswordEntry> = Vec::new();
                assert(entry_views(entries@) =~= Seq::<EntryView>::empty());
                Ok(entries)
            },
            VaultFile::Unreadable => Err(VaultError::Io(IoFault::Read)),
            VaultFile::Present(text) => {
                match read_envelope(text.as_str()) {
                    Some(envelope) => unseal(&envelope, &self.master_key),
                    None => Err(VaultError::Format(FormatFault::Envelope)),
                }
            },
        }
    }

    /// The new text of the vault file for a list of entries, sealed with a
    /// given nonce. The text loads, under this store's key, to the same
    /// entries.
    pub fn save_all_with_nonce(
        &self,
        file: &VaultFile,
        entries: &Vec<PasswordEntry>,
        nonce: &[u8; 12],
    ) -> (r: Result<String, VaultError>)
        ensures
            text_result(r) == rewrite_outcome(*file, self@, entry_views(entries@), nonce@),
            small(entry_views(entries@)) ==> r is Ok,
            r matches Ok(text) ==> written(
                kept_salt(*file, self@.salt),
                self@.key,
                entry_views(entries@),
                text@,
            ),
    {
        let kept = match file {
            VaultFile::Present(text) => read_envelope(text.as_str()),
            _ => None,
        };
        let salt = match kept {
            Some(envelope) => envelope.salt,
            None => self.salt.clone(),
        };
        assert(salt@ == kept_salt(*file, self@.salt));
        let envelope = match seal_with_nonce(entries, &self.master_key, salt, nonce) {
            Ok(envelope) => envelope,
            Err(fault) => {
                return Err(fault);
            },
        };
        Ok(write_envelope(&envelope))
    }

    /// The new text of the vault file for a list of entries, sealed with a
    /// fresh random nonce. Whatever the nonce, the text loads, under this
    /// store's key, to the same entries.
    pub fn save_all(&self, file: &VaultFile, entries: &Vec<PasswordEntry>) -> (r: Result<
        String,
        VaultError,
    >)
        ensures
            exists|nonce: Seq<u8>|
                nonce.len() == NONCE_LEN && text_result(r) == #[trigger] rewrite_outcome(
                    *file,
                    self@,
                    entry_views(entries@),
                    nonce,
                ),
            small(entry_views(entries@)) ==> r is Ok,
            r matches Ok(text) ==> written(
                kept_salt(*file, self@.salt),
                self@.key,
                entry_views(entries@),
                text@,
            ),
    {
        let mut nonce = [0u8; 12];
        crate::random::fill(&mut nonce);
        let r = self.save_all_with_nonce(file, entries, &nonce);
        assert(text_result(r) == rewrite_outcome(*file, self@, entry_views(entries@), nonce@));
        r
    }

    /// Appends an entry: loads the entries, adds the new one at the end,
    /// and returns the new text of the file. A failed load fails the call.
    pub fn save(&self, file: &VaultFile, entry: PasswordEntry) -> (r: Result<String, VaultError>)
        ensures
            exists|nonce: Seq<u8>|
                nonce.len() == NONCE_LEN && text_result(r) == #[trigger] save_outcome(
                    *file,
                    self@,
                    entry@,
                    nonce,
                ),
            file_entries(*file, self@.key) matches Ok(entries) && small(entries.push(entry@))
                ==> r is Ok,
            r matches Ok(text) ==> written(
                kept_salt(*file, self@.salt),
                self@.key,
                file_entries(*file, self@.key)->Ok_0.push(entry@),
                text@,
            ),
    {
        let mut entries = match self.load(file) {
            Ok(entries) => entries,
            Err(fault) => {
                let r = Err(fault);
                assert(text_result(r) == save_outcome(
                    *file,
                    self@,
                    entry@,
                    Seq::new(12, |i: int| 0u8),
                ));
                return r;
            },
        };
        let ghost before = entry_views(entries@);
        entries.push(entry);
        assert(entry_views(entries@) =~= before.push(entry@));
        let r = self.save_all(file, &entries);
        proof {
            let nonce = choose|nonce: Seq<u8>|
                nonce.len() == NONCE_LEN && text_result(r) == #[trigger] rewrite_outcome(
                    *file,
                    self@,
                    entry_views(entries@),
                    nonce,
                );
            assert(text_result(r) == save_outcome(*file, self@, entry@, nonce));
        }
        r
    }

    /// The place of the vault file, for display.
    pub fn path(&self) -> (r: &String)
        ensures
            r@ == self@.path,
    {
        &self.file_path
    }

    /// Deletes the entry at `index` and returns the new text of the file.
    /// An index that is not that of an entry is refused, and there is
    /// nothing to write.
    pub fn delete(&self, file: &VaultFile, index: usize) -> (r: Result<String, VaultError>)
        ensures
            exists|nonce: Seq<u8>|
                nonce.len() == NONCE_LEN && text_result(r) == #[trigger] delete_outcome(
                    *file,
                    self@,
                    index as int,
                    nonce,
                ),
            file_entries(*file, self@.key) matches Ok(entries) && index < entries.len() && small(
                entries.remove(index as int),
            ) ==> r is Ok,
            r matches Ok(text) ==> written(
                kept_salt(*file, self@.salt),
                self@.key,
                file_entries(*file, self@.key)->Ok_0.remove(index as int),
                text@,
            ),
    {
        let ghost zeros = Seq::new(12, |i: int| 0u8);
        let mut entries = match self.load(file) {
            Ok(entries) => entries,
            Err(fault) => {
                let r = Err(fault);
                assert(text_result(r) == delete_outcome(*file, self@, index as int, zeros));
                return r;
            },
        };
        if index >= entries.len() {
            let r = Err(VaultError::Index);
            assert(text_result(r) == delete_outcome(*file, self@, index as int, zeros));
            return r;
        }
        let ghost before = entry_views(entries@);
        entries.remove(index);
        assert(entry_views(entries@) =~= before.remove(index as int));
        let r = self.save_all(file, &entries);
        proof {
            let nonce = choose|nonce: Seq<u8>|
                nonce.len() == NONCE_LEN && text_result(r) == #[trigger] rewrite_outcome(
                    *file,
                    self@,
                    entry_views(entries@),
                    nonce,
                );
            assert(text_result(r) == delete_outcome(*file, self@, index as int, nonce));
        }
        r
    }

    /// Replaces the entry at `index` and returns the new text of the file.
    /// An index that is not that of an entry is refused, and there is
    /// nothing to write.
    pub fn update(&self, file: &VaultFile, index: usize, entry: PasswordEntry) -> (r: Result<
        String,
        VaultError,
    >)
        ensures
            exists|nonce: Seq<u8>|
                nonce.len() == NONCE_LEN && text_result(r) == #[trigger] update_outcome(
                    *file,
                    self@,
                    index as int,
                    entry@,
                    nonce,
                ),
            file_entries(*file, self@.key) matches Ok(entries) && index < entries.len() && small(
                entries.update(index as int, entry@),
            ) ==> r is Ok,
            r matches Ok(text) ==> written(
                kept_salt(*file, self@.salt),
                self@.key,
                file_entries(*file, self@.key)->Ok_0.update(index as int, entry@),
                text@,
            ),
    {
        let ghost zeros = Seq::new(12, |i: int| 0u8);
        let mut entries = match self.load(file) {
            Ok(entries) => entries,
            Err(fault) => {
                let r = Err(fault);
                assert(text_result(r) == update_outcome(*file, self@, index as int, entry@, zeros));
                return r;
            },
        };
        if index >= entries.len() {
            let r = Err(VaultError::Index);
            assert(text_result(r) == update_outcome(*file, self@, index as int, entry@, zeros));
            return r;
        }
        let ghost before = entry_views(entries@);
        entries[index] = entry;
        assert(entry_views(entries@) =~= before.update(index as int, entry@));
        let r = self.save_all(file, &entries);
        proof {
            let nonce = choose|nonce: Seq<u8>|
                nonce.len() == NONCE_LEN && text_result(r) == #[trigger] rewrite_outcome(
                    *file,
                    self@,
                    entry_views(entries@),
                    nonce,
                );
            assert(text_result(r) == update_outcome(*file, self@, index as int, entry@, nonce));
        }
        r
    }

    /// Changes the master passphrase, with a given new salt and nonce:
    /// loads the entries with the current key, seals them under the key of
    /// the new passphrase and salt, and returns the store of the new key
    /// with the new text of the file.
    pub fn rotate(
        &self,
        file: &VaultFile,
        new_password: &str,
        salt: &[u8; 16],
        nonce: &[u8; 12],
    ) -> (r: Result<(Storage, String), VaultError>)
        ensures
            rotation_result(r) == rotate_outcome(*file, self@, new_password@, salt@, nonce@),
            file_entries(*file, self@.key) matches Ok(entries) && small(entries) ==> r is Ok,
            r matches Ok((store, text)) ==> store@.opens_with(new_password@) && written(
                store@.salt,
                store@.key,
                file_entries(*file, self@.key)->Ok_0,
                text@,
            ),
    {
        let entries = match self.load(file) {
            Ok(entries) => entries,
            Err(fault) => {
                return Err(fault);
            },
        };
        let store = Storage::with_salt(self.file_path.clone(), new_password, salt);
        let envelope = match seal_with_nonce(&entries, &store.master_key, store.salt.clone(), nonce) {
            Ok(envelope) => envelope,
            Err(fault) => {
                return Err(fault);
            },
        };
        let text = write_envelope(&envelope);
        Ok((store, text))
    }

    /// Changes the master passphrase: loads the entries with the current
    /// key, draws a new salt, seals the entries under the key of the new
    /// passphrase, and returns the store of the new key with the new text
    /// of the file. Once that text is written, this store no longer opens
    /// the vault.
    pub fn change_master_password(&self, file: &VaultFile, new_password: &str) -> (r: Result<
        (Storage, String),
        VaultError,
    >)
        ensures
            exists|salt: Seq<u8>, nonce: Seq<u8>|
                salt.len() == SALT_LEN && nonce.len() == NONCE_LEN && rotation_result(r)
                    == #[trigger] rotate_outcome(*file, self@, new_password@, salt, nonce),
            file_entries(*file, self@.key) matches Ok(entries) && small(entries) ==> r is Ok,
            r matches Ok((store, text)) ==> store@.opens_with(new_password@) && written(
                store@.salt,
                store@.key,
                file_entries(*file, self@.key)->Ok_0,
                text@,
            ),
    {
        let mut salt = [0u8; 16];
        crate::random::fill(&mut salt);
        let mut nonce = [0u8; 12];
        crate::random::fill(&mut nonce);
        let r = self.rotate(file, new_password, &salt, &nonce);
        assert(rotation_result(r) == rotate_outcome(*file, self@, new_password@, salt@, nonce@));
        r
    }
}

/// Whether a save of `entry` by `store` turned the vault file `before` into
/// `after`.
pub open spec fn saved(before: VaultFile, store: StorageView, entry: EntryView, after: VaultFile) -> bool {
    &&& file_entries(before, store.key) matches Ok(entries)
    &&& after matches VaultFile::Present(text)
    &&& written(kept_salt(before, store.salt), store.key, entries.push(entry), text@)
}

/// A vault file written for some entries under a key loads, under that key,
/// to exactly those entries.
pub proof fn lemma_written_loads(
    file: VaultFile,
    salt: Seq<char>,
    key: Seq<u8>,
    entries: Seq<EntryView>,
)
    requires
        file matches VaultFile::Present(text) && written(salt, key, entries, text@),
    ensures
        file_entries(file, key) == Ok::<Seq<EntryView>, VaultError>(entries),
{
}

/// The room of a list of entries is that of its entries, and two more.
/// Taking an entry out leaves less room; putting one in place of another
/// changes the room by the difference of the two.
pub proof fn lemma_room_of_changes(entries: Seq<EntryView>, index: int, entry: EntryView)
    requires
        0 <= index < entries.len(),
    ensures
        entries_room(entries.remove(index)) + entry_room(entries[index]) == entries_room(entries),
        entries_room(entries.update(index, entry)) + entry_room(entries[index]) == entries_room(
            entries,
        ) + entry_room(entry),
        entries_room(entries.push(entry)) == entries_room(entries) + entry_room(entry),
    decreases entries.len(),
{
    assert(entries.push(entry).drop_last() =~= entries);
    if index == entries.len() - 1 {
        assert(entries.remove(index) =~= entries.drop_last());
        assert(entries.update(index, entry).drop_last() =~= entries.drop_last());
    } else {
        lemma_room_of_changes(entries.drop_last(), index, entry);
        assert(entries.remove(index).drop_last() =~= entries.drop_last().remove(index));
        assert(entries.update(index, entry).drop_last() =~= entries.drop_last().update(
            index,
            entry,
        ));
    }
}

/// An empty vault is small, and a small vault stays small when an entry
/// is deleted from it.
pub proof fn lemma_small_vaults(entries: Seq<EntryView>, index: int)
    ensures
        small(Seq::<EntryView>::empty()),
        small(entries) && 0 <= index < entries.len() ==> small(entries.remove(index)),
{
    if 0 <= index < entries.len() {
        lemma_room_of_changes(entries, index, entries[index]);
    }
}

/// A save succeeds exactly where the vault loads and the entries, with the
/// new one, are small enough to seal; a failed load fails it with the
/// load's own fault.
pub proof fn lemma_save_succeeds_when_sealable(
    file: VaultFile,
    store: StorageView,
    entry: EntryView,
    nonce: Seq<u8>,
)
    ensures
        save_outcome(file, store, entry, nonce) is Ok <==> (file_entries(file, store.key)
            matches Ok(entries) && sealable(entries.push(entry))),
        file_entries(file, store.key) matches Err(fault) ==> save_outcome(
            file,
            store,
            entry,
            nonce,
        ) == Err::<Seq<char>, VaultError>(fault),
{
}

/// A delete, an update and a change of the master passphrase each succeed
/// exactly where the vault loads, the index, if there is one, is that of
/// an entry, and the entries as they will be are small enough to seal.
pub proof fn lemma_changes_succeed_when_sealable(
    file: VaultFile,
    store: StorageView,
    index: int,
    entry: EntryView,
    new_passphrase: Seq<char>,
    salt: Seq<u8>,
    nonce: Seq<u8>,
)
    requires
        0 <= index,
    ensures
        delete_outcome(file, store, index, nonce) is Ok <==> (file_entries(file, store.key)
            matches Ok(entries) && index < entries.len() && sealable(entries.remove(index))),
        update_outcome(file, store, index, entry, nonce) is Ok <==> (file_entries(
            file,
            store.key,
        ) matches Ok(entries) && index < entries.len() && sealable(entries.update(index, entry))),
        rotate_outcome(file, store, new_passphrase, salt, nonce) is Ok <==> (file_entries(
            file,
            store.key,
        ) matches Ok(entries) && sealable(entries)),
{
}

/// After a save the vault loads to the entries it held before, each at its
/// index and unchanged, followed by the new one.
pub proof fn lemma_save_appends(
    before: VaultFile,
    store: StorageView,
    entry: EntryView,
    after: VaultFile,
)
    requires
        saved(before, store, entry, after),
    ensures
        file_entries(before, store.key) is Ok,
        file_entries(after, store.key) matches Ok(entries) && ({
            let old_entries = file_entries(before, store.key)->Ok_0;
            &&& entries == old_entries.push(entry)
            &&& entries.len() == old_entries.len() + 1
            &&& entries.last() == entry
            &&& forall|i: int| 0 <= i < old_entries.len() ==> entries[i] == old_entries[i]
        }),
{
}

/// A vault file written under one key does not load under a key for which
/// the cipher rejects the tag: the load fails with an authentication
/// fault, and never returns entries. After a change of the master
/// passphrase this is how the old key fails.
pub proof fn lemma_rejected_key_never_loads(
    file: VaultFile,
    salt: Seq<char>,
    key: Seq<u8>,
    entries: Seq<EntryView>,
    other_key: Seq<u8>,
)
    requires
        file matches VaultFile::Present(text) && written(salt, key, entries, text@),
        ({
            let envelope = text_envelope(file->Present_0@)->0;
            crate::cipher::aes256_gcm_open(
                other_key,
                base64_bytes(envelope.nonce)->0,
                base64_bytes(envelope.ciphertext)->0,
            ) is None
        }),
    ensures
        file_entries(file, other_key) == Err::<Seq<EntryView>, VaultError>(
            VaultError::Authentication,
        ),
{
}

/// Saving into a vault that started out missing, any number of times and
/// with nothing deleted, leaves a file that loads to exactly the saved
/// entries, in the order of the calls.
pub proof fn lemma_saves_accumulate(
    store: StorageView,
    files: Seq<VaultFile>,
    entries: Seq<EntryView>,
)
    requires
        files.len() == entries.len() + 1,
        files[0] == VaultFile::Missing,
        forall|i: int|
            0 <= i < entries.len() ==> saved(#[trigger] files[i], store, entries[i], files[i + 1]),
    ensures
        file_entries(files.last(), store.key) == Ok::<Seq<EntryView>, VaultError>(entries),
    decreases entries.len(),
{
    if entries.len() == 0 {
        assert(entries =~= Seq::<EntryView>::empty());
    } else {
        let n = entries.len() - 1;
        lemma_saves_accumulate(store, files.drop_last(), entries.drop_last());
        assert(files.drop_last().last() == files[n]);
        assert(saved(files[n], store, entries[n], files[n + 1]));
        assert(entries.drop_last().push(entries[n]) =~= entries);
    }
}

/// Deleting at an index below the length removes that entry and no other:
/// the entries before it stay in place, those after it move up by one. An
/// index at or above the length is refused, whatever the file holds, and
/// nothing is written.
pub proof fn lemma_delete_removes_one(
    file: VaultFile,
    store: StorageView,
    index: int,
    nonce: Seq<u8>,
)
    requires
        0 <= index,
        file_entries(file, store.key) is Ok,
    ensures
        ({
            let entries = file_entries(file, store.key)->Ok_0;
            let outcome = delete_outcome(file, store, index, nonce);
            &&& index >= entries.len() ==> outcome == Err::<Seq<char>, VaultError>(
                VaultError::Index,
            )
            &&& index < entries.len() ==> {
                let left = entries.remove(index);
                &&& outcome == rewrite_outcome(file, store, left, nonce)
                &&& left.len() == entries.len() - 1
                &&& forall|j: int| 0 <= j < index ==> left[j] == entries[j]
                &&& forall|j: int| index <= j < left.len() ==> left[j] == entries[j + 1]
            }
        }),
{
}

/// Updating at an index below the length replaces that entry and no other.
/// An index at or above the length is refused, whatever the file holds, and
/// nothing is written.
pub proof fn lemma_update_replaces_one(
    file: VaultFile,
    store: StorageView,
    index: int,
    entry: EntryView,
    nonce: Seq<u8>,
)
    requires
        0 <= index,
        file_entries(file, store.key) is Ok,
    ensures
        ({
            let entries = file_entries(file, store.key)->Ok_0;
            let outcome = update_outcome(file, store, index, entry, nonce);
            &&& index >= entries.len() ==> outcome == Err::<Seq<char>, VaultError>(
                VaultError::Index,
            )
            &&& index < entries.len() ==> {
                let changed = entries.update(index, entry);
                &&& outcome == rewrite_outcome(file, store, changed, nonce)
                &&& changed.len() == entries.len()
                &&& changed[index] == entry
                &&& forall|j: int|
                    0 <= j < entries.len() && j != index ==> changed[j] == entries[j]
            }
        }),
{
}

/// After a change of the master passphrase, opening the new file with the
/// new passphrase gives the store that the change returned, and loading
/// with it gives the entries that the vault held before.
pub proof fn lemma_rotation_reopens(
    file: VaultFile,
    new_passphrase: Seq<char>,
    store: StorageView,
    entries: Seq<EntryView>,
    fresh_salt: Seq<u8>,
)
    requires
        store.opens_with(new_passphrase),
        file matches VaultFile::Present(text) && written(store.salt, store.key, entries, text@),
    ensures
        opened_store(file, store.path, new_passphrase, fresh_salt) == Ok::<
            StorageView,
            VaultError,
        >(store),
        file_entries(file, store.key) == Ok::<Seq<EntryView>, VaultError>(entries),
{
}

/// Entries are only ever loaded whole and under a verified tag: where
/// loading a file succeeds, the file holds an envelope whose ciphertext
/// the key opens; where the key does not open it, the load fails with an
/// authentication fault and returns no entries.
pub proof fn lemma_load_verifies_tag(file: VaultFile, key: Seq<u8>)
    requires
        file matches VaultFile::Present(text) && text_envelope(text@) is Some,
    ensures
        ({
            let envelope = text_envelope(file->Present_0@)->0;
            let nonce = base64_bytes(envelope.nonce);
            let sealed = base64_bytes(envelope.ciphertext);
            &&& file_entries(file, key) is Ok ==> nonce is Some && sealed is Some
                && crate::cipher::aes256_gcm_open(key, nonce->0, sealed->0) is Some
            &&& nonce is Some && sealed is Some && nonce->0.len() == NONCE_LEN
                && crate::cipher::aes256_gcm_open(key, nonce->0, sealed->0) is None
                ==> file_entries(file, key) == Err::<Seq<EntryView>, VaultError>(
                VaultError::Authentication,
            )
        }),
{
}

} // verus!
