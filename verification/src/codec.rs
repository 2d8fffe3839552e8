//! The vault codec: a list of entries to and from the envelope that is
//! stored on disk.
//!
//! The entries are written as a JSON list, the text is sealed with
//! AES-256-GCM under a fresh nonce, and nonce and ciphertext are stored as
//! base64 beside the salt of the key.

use crate::armor::{base64_bytes, base64_text, encodable_len};
use crate::cipher::{
    aes256_gcm_open, aes256_gcm_seal, MAX_PLAINTEXT_LEN, NONCE_LEN, TAG_LEN,
};
use crate::error::{FormatFault, VaultError};
use crate::json::{
    all_distinct_keys, fields_object, records_room, list_text, member, object3, object_text,
    read_list, read_object, record3, records_objects, text_list, text_object, write_list,
    write_object,
};
use crate::storage::{entry_views, EntryView, PasswordEntry};
use vstd::prelude::*;
use vstd::utf8::{decode_utf8, encode_utf8, valid_utf8};

verus! {

/// The on-disk record: three printable fields.
#[derive(Debug)]
pub struct Envelope {
    /// The salt of the key, base64.
    pub salt: String,
    /// The nonce of this sealing, base64.
    pub nonce: String,
    /// The sealed entries, base64.
    pub ciphertext: String,
}

/// What an envelope holds, as plain text.
pub struct EnvelopeView {
    pub salt: Seq<char>,
    pub nonce: Seq<char>,
    pub ciphertext: Seq<char>,
}

impl View for Envelope {
    type V = EnvelopeView;

    open spec fn view(&self) -> EnvelopeView {
        EnvelopeView { salt: self.salt@, nonce: self.nonce@, ciphertext: self.ciphertext@ }
    }
}

/// The JSON object of an entry.
pub open spec fn entry_object(entry: EntryView) -> Map<Seq<char>, Seq<char>> {
    object3("created_at"@, entry.created_at, "name"@, entry.name, "password"@, entry.password)
}

/// The entry that a JSON object stands for: it must have the three members;
/// others are ignored.
pub open spec fn object_entry(object: Map<Seq<char>, Seq<char>>) -> Option<EntryView> {
    if object.dom().contains("name"@) && object.dom().contains("password"@) && object.dom().contains(
        "created_at"@,
    ) {
        Some(
            EntryView {
                name: object["name"@],
                password: object["password"@],
                created_at: object["created_at"@],
            },
        )
    } else {
        None
    }
}

/// The JSON objects of a list of entries, in order.
pub open spec fn entry_objects(entries: Seq<EntryView>) -> Seq<Map<Seq<char>, Seq<char>>> {
    Seq::new(entries.len(), |i: int| entry_object(entries[i]))
}

/// Whether every object of the list stands for an entry.
pub open spec fn all_entries(objects: Seq<Map<Seq<char>, Seq<char>>>) -> bool {
    forall|i: int| 0 <= i < objects.len() ==> (#[trigger] object_entry(objects[i])) is Some
}

/// The plaintext of a list of entries.
pub open spec fn entries_text(entries: Seq<EntryView>) -> Seq<char> {
    list_text(entry_objects(entries))
}

/// The entries that a plaintext holds, or `None` where it is not a list of
/// entries.
pub open spec fn text_entries(text: Seq<char>) -> Option<Seq<EntryView>> {
    match text_list(text) {
        Some(objects) => if all_entries(objects) {
            Some(Seq::new(objects.len(), |i: int| object_entry(objects[i])->0))
        } else {
            None
        },
        None => None,
    }
}

/// The JSON object of an envelope.
pub open spec fn envelope_object(envelope: EnvelopeView) -> Map<Seq<char>, Seq<char>> {
    object3(
        "ciphertext"@,
        envelope.ciphertext,
        "nonce"@,
        envelope.nonce,
        "salt"@,
        envelope.salt,
    )
}

/// The envelope that a JSON object stands for: it must have the three
/// members; others are ignored.
pub open spec fn object_envelope(object: Map<Seq<char>, Seq<char>>) -> Option<EnvelopeView> {
    if object.dom().contains("salt"@) && object.dom().contains("nonce"@) && object.dom().contains(
        "ciphertext"@,
    ) {
        Some(
            EnvelopeView {
                salt: object["salt"@],
                nonce: object["nonce"@],
                ciphertext: object["ciphertext"@],
            },
        )
    } else {
        None
    }
}

/// The file text of an envelope.
pub open spec fn envelope_text(envelope: EnvelopeView) -> Seq<char> {
    object_text(envelope_object(envelope))
}

/// The envelope that a file text holds, or `None` where it holds none.
pub open spec fn text_envelope(text: Seq<char>) -> Option<EnvelopeView> {
    match text_object(text) {
        Some(object) => object_envelope(object),
        None => None,
    }
}

/// The entries that a key opens an envelope to, or the fault that stops it.
///
/// A tag that does not verify is the one sign of a wrong key; it is not
/// told apart from a corrupted ciphertext.
pub open spec fn unsealed(envelope: EnvelopeView, key: Seq<u8>) -> Result<
    Seq<EntryView>,
    VaultError,
> {
    match base64_bytes(envelope.nonce) {
        None => Err(VaultError::Format(FormatFault::Nonce)),
        Some(nonce) => match base64_bytes(envelope.ciphertext) {
            None => Err(VaultError::Format(FormatFault::Ciphertext)),
            Some(sealed) => if nonce.len() != NONCE_LEN {
                Err(VaultError::Format(FormatFault::Nonce))
            } else {
                match aes256_gcm_open(key, nonce, sealed) {
                    None => Err(VaultError::Authentication),
                    Some(plaintext) => if !valid_utf8(plaintext) {
                        Err(VaultError::Format(FormatFault::Utf8))
                    } else {
                        match text_entries(decode_utf8(plaintext)) {
                            None => Err(VaultError::Format(FormatFault::Entries)),
                            Some(entries) => Ok(entries),
                        }
                    },
                }
            },
        },
    }
}

/// Most bytes of room that a vault may ask for and still be sure to be
/// sealed.
pub const SMALL_ROOM: usize = 0x4000_0000;

/// Room for the plaintext of an entry: 153 bytes for its braces, comma and
/// the three names, and six for each character of its fields.
pub open spec fn entry_room(entry: EntryView) -> nat {
    153 + 6 * (entry.name.len() + entry.password.len() + entry.created_at.len())
}

/// Room for the plaintext of a list of entries: it is never longer.
pub open spec fn entries_room(entries: Seq<EntryView>) -> nat
    decreases entries.len(),
{
    if entries.len() == 0 {
        2
    } else {
        entries_room(entries.drop_last()) + entry_room(entries.last())
    }
}

/// Whether a list of entries is small for sure: its room is within a
/// gigabyte. A small list can always be sealed; this is stated over the
/// entries alone, where `sealable` needs their plaintext.
pub open spec fn small(entries: Seq<EntryView>) -> bool {
    entries_room(entries) <= SMALL_ROOM
}

/// Whether a plaintext of `len` bytes is small enough to seal and store:
/// within the cipher's limit, and with sealed bytes, sixteen more, whose
/// base64 text fits in a buffer.
pub open spec fn sealable_len(len: nat) -> bool {
    len <= MAX_PLAINTEXT_LEN && encodable_len(len + TAG_LEN as nat)
}

/// Whether a list of entries is small enough to seal and store.
pub open spec fn sealable(entries: Seq<EntryView>) -> bool {
    sealable_len(encode_utf8(entries_text(entries)).len())
}

/// The envelope that sealing makes of entries, under a key, for a salt text
/// and a nonce.
pub open spec fn sealed_envelope(
    entries: Seq<EntryView>,
    key: Seq<u8>,
    salt: Seq<char>,
    nonce: Seq<u8>,
) -> EnvelopeView {
    EnvelopeView {
        salt,
        nonce: base64_text(nonce),
        ciphertext: base64_text(aes256_gcm_seal(key, nonce, encode_utf8(entries_text(entries)))),
    }
}

/// The names of an entry's members differ, so an entry is read back from
/// its own object.
pub proof fn lemma_entry_object(entry: EntryView)
    ensures
        object_entry(entry_object(entry)) == Some(entry),
{
    reveal_strlit("name");
    reveal_strlit("password");
    reveal_strlit("created_at");
    assert("name"@.len() == 4 && "password"@.len() == 8 && "created_at"@.len() == 10);
}

/// The names of an envelope's members differ, so an envelope is read back
/// from its own object.
pub proof fn lemma_envelope_object(envelope: EnvelopeView)
    ensures
        object_envelope(envelope_object(envelope)) == Some(envelope),
{
    reveal_strlit("salt");
    reveal_strlit("nonce");
    reveal_strlit("ciphertext");
    assert("salt"@.len() == 4 && "nonce"@.len() == 5 && "ciphertext"@.len() == 10);
}

/// Writes a list of entries as plaintext. Reading the plaintext gives the
/// list back, in order.
pub fn encode_entries(entries: &Vec<PasswordEntry>) -> (text: String)
    ensures
        text@ == entries_text(entry_views(entries@)),
        text_entries(text@) == Some(entry_views(entries@)),
        encode_utf8(text@).len() <= entries_room(entry_views(entries@)),
        small(entry_views(entries@)) ==> sealable(entry_views(entries@)),
{
    let ghost views = entry_views(entries@);
    let mut records: Vec<Vec<(String, String)>> = Vec::new();
    let mut i: usize = 0;
    while i < entries.len()
        invariant
            i <= entries.len(),
            records.len() == i,
            all_distinct_keys(records@),
            views == entry_views(entries@),
            records_room(records@) == entries_room(views.take(i as int)),
            forall|j: int| 0 <= j < i ==> fields_object(#[trigger] records@[j]@) == entry_object(entries@[j]@),
        decreases entries.len() - i,
    {
        let entry = &entries[i];
        let ghost before = records@;
        proof {
            reveal_strlit("name");
            reveal_strlit("password");
            reveal_strlit("created_at");
            assert("name"@.len() == 4 && "password"@.len() == 8 && "created_at"@.len() == 10);
        }
        let record = record3(
            "created_at",
            &entry.created_at,
            "name",
            &entry.name,
            "password",
            &entry.password,
        );
        records.push(record);
        i += 1;
        proof {
            assert(records@.drop_last() =~= before);
            assert(views.take(i as int).drop_last() =~= views.take(i - 1));
            assert(views.take(i as int).last() == entry@);
        }
    }
    assert(views.take(entries.len() as int) =~= views);
    proof {
        assert(records_objects(records@) =~= entry_objects(views));
        assert forall|j: int| 0 <= j < views.len() implies (#[trigger] object_entry(
            entry_objects(views)[j],
        )) == Some(views[j]) by {
            lemma_entry_object(views[j]);
        }
        assert(all_entries(entry_objects(views)));
        assert(Seq::new(
            entry_objects(views).len(),
            |j: int| object_entry(entry_objects(views)[j])->0,
        ) =~= views);
    }
    match write_list(&records) {
        Ok(text) => text,
        // Records of strings always have a JSON text.
        Err(_) => vstd::pervasive::unreached(),
    }
}

/// Reads a list of entries from plaintext.
pub fn decode_entries(text: &str) -> (r: Option<Vec<PasswordEntry>>)
    ensures
        r matches Some(entries) ==> text_entries(text@) == Some(entry_views(entries@)),
        r is None ==> text_entries(text@) is None,
{
    let records = match read_list(text) {
        Ok(records) => records,
        Err(_) => {
            return None;
        },
    };
    let ghost objects = records_objects(records@);
    let mut entries: Vec<PasswordEntry> = Vec::new();
    let mut i: usize = 0;
    while i < records.len()
        invariant
            i <= records.len(),
            entries.len() == i,
            all_distinct_keys(records@),
            objects == records_objects(records@),
            text_list(text@) == Some(objects),
            forall|j: int| 0 <= j < i ==> (#[trigger] object_entry(objects[j])) == Some(entries@[j]@),
        decreases records.len() - i,
    {
        let record = &records[i];
        assert(fields_object(record@) == objects[i as int]);
        let name = member(record, "name");
        let password = member(record, "password");
        let created_at = member(record, "created_at");
        match (name, password, created_at) {
            (Some(name), Some(password), Some(created_at)) => {
                entries.push(
                    PasswordEntry {
                        name: name.clone(),
                        password: password.clone(),
                        created_at: created_at.clone(),
                    },
                );
            },
            _ => {
                assert(object_entry(objects[i as int]) is None);
                assert(!all_entries(objects));
                return None;
            },
        }
        i += 1;
    }
    proof {
        assert(all_entries(objects));
        assert(Seq::new(objects.len(), |j: int| object_entry(objects[j])->0) =~= entry_views(
            entries@,
        ));
    }
    Some(entries)
}

/// Writes an envelope as file text. Reading the text gives the envelope
/// back.
pub fn write_envelope(envelope: &Envelope) -> (text: String)
    ensures
        text@ == envelope_text(envelope@),
        text_envelope(text@) == Some(envelope@),
{
    proof {
        reveal_strlit("salt");
        reveal_strlit("nonce");
        reveal_strlit("ciphertext");
        assert("salt"@.len() == 4 && "nonce"@.len() == 5 && "ciphertext"@.len() == 10);
        lemma_envelope_object(envelope@);
    }
    let record = record3(
        "ciphertext",
        &envelope.ciphertext,
        "nonce",
        &envelope.nonce,
        "salt",
        &envelope.salt,
    );
    match write_object(&record) {
        Ok(text) => text,
        // A record of strings always has a JSON text.
        Err(_) => vstd::pervasive::unreached(),
    }
}

/// Reads an envelope from file text.
pub fn read_envelope(text: &str) -> (r: Option<Envelope>)
    ensures
        r matches Some(envelope) ==> text_envelope(text@) == Some(envelope@),
        r is None ==> text_envelope(text@) is None,
{
    let record = match read_object(text) {
        Ok(record) => record,
        Err(_) => {
            return None;
        },
    };
    let salt = member(&record, "salt");
    let nonce = member(&record, "nonce");
    let ciphertext = member(&record, "ciphertext");
    match (salt, nonce, ciphertext) {
        (Some(salt), Some(nonce), Some(ciphertext)) => Some(
            Envelope { salt: salt.clone(), nonce: nonce.clone(), ciphertext: ciphertext.clone() },
        ),
        _ => None,
    }
}

/// Seals a list of entries under a key, with a given nonce; `salt` is the
/// printable salt of the key, stored beside the result.
///
/// The envelope opens, under the same key, to the same entries. Sealing
/// fails only where the entries are too large.
pub fn seal_with_nonce(
    entries: &Vec<PasswordEntry>,
    key: &[u8; 32],
    salt: String,
    nonce: &[u8; 12],
) -> (r: Result<Envelope, VaultError>)
    ensures
        r is Ok <==> sealable(entry_views(entries@)),
        small(entry_views(entries@)) ==> r is Ok,
        r matches Err(fault) ==> fault == VaultError::TooLarge,
        r matches Ok(envelope) ==> {
            &&& envelope@ == sealed_envelope(entry_views(entries@), key@, salt@, nonce@)
            &&& unsealed(envelope@, key@) == Ok::<Seq<EntryView>, VaultError>(
                entry_views(entries@),
            )
        },
{
    let text = encode_entries(entries);
    let plaintext = text.as_str().as_bytes();
    let room: usize = isize::MAX as usize;
    if plaintext.len() > room - TAG_LEN {
        return Err(VaultError::TooLarge);
    }
    if ((plaintext.len() + TAG_LEN) / 3) * 4 + 4 > room {
        return Err(VaultError::TooLarge);
    }
    let sealed = match crate::cipher::encrypt(key, nonce.as_slice(), plaintext) {
        Ok(sealed) => sealed,
        Err(_) => {
            return Err(VaultError::TooLarge);
        },
    };
    proof {
        vstd::utf8::encode_utf8_valid_utf8(text@);
        vstd::utf8::encode_utf8_decode_utf8(text@);
    }
    let envelope = Envelope {
        salt,
        nonce: crate::armor::encode(nonce.as_slice()),
        ciphertext: crate::armor::encode(sealed.as_slice()),
    };
    Ok(envelope)
}

/// Seals a list of entries under a key, with a fresh random nonce; `salt`
/// is the printable salt of the key, stored beside the result.
///
/// Whatever the nonce, the envelope opens under the same key to the same
/// entries. Sealing fails only where the entries are too large.
pub fn seal(entries: &Vec<PasswordEntry>, key: &[u8; 32], salt: String) -> (r: Result<
    Envelope,
    VaultError,
>)
    ensures
        r is Ok <==> sealable(entry_views(entries@)),
        small(entry_views(entries@)) ==> r is Ok,
        r matches Err(fault) ==> fault == VaultError::TooLarge,
        r matches Ok(envelope) ==> {
            &&& envelope.salt@ == salt@
            &&& exists|nonce: Seq<u8>|
                nonce.len() == NONCE_LEN && envelope@ == #[trigger] sealed_envelope(
                    entry_views(entries@),
                    key@,
                    salt@,
                    nonce,
                )
            &&& unsealed(envelope@, key@) == Ok::<Seq<EntryView>, VaultError>(
                entry_views(entries@),
            )
        },
{
    let mut nonce = [0u8; 12];
    crate::random::fill(&mut nonce);
    seal_with_nonce(entries, key, salt, &nonce)
}

/// Opens an envelope with a key.
pub fn unseal(envelope: &Envelope, key: &[u8; 32]) -> (r: Result<Vec<PasswordEntry>, VaultError>)
    ensures
        r matches Ok(entries) ==> unsealed(envelope@, key@) == Ok::<Seq<EntryView>, VaultError>(
            entry_views(entries@),
        ),
        r matches Err(fault) ==> unsealed(envelope@, key@) == Err::<Seq<EntryView>, VaultError>(
            fault,
        ),
{
    let nonce = match crate::armor::decode(envelope.nonce.as_str()) {
        Ok(nonce) => nonce,
        Err(_) => {
            return Err(VaultError::Format(FormatFault::Nonce));
        },
    };
    let sealed = match crate::armor::decode(envelope.ciphertext.as_str()) {
        Ok(sealed) => sealed,
        Err(_) => {
            return Err(VaultError::Format(FormatFault::Ciphertext));
        },
    };
    if nonce.len() != NONCE_LEN {
        return Err(VaultError::Format(FormatFault::Nonce));
    }
    let plaintext = match crate::cipher::decrypt(key, nonce.as_slice(), sealed.as_slice()) {
        Ok(plaintext) => plaintext,
        Err(_) => {
            return Err(VaultError::Authentication);
        },
    };
    let text = match String::from_utf8(plaintext) {
        Ok(text) => text,
        Err(_) => {
            return Err(VaultError::Format(FormatFault::Utf8));
        },
    };
    match decode_entries(text.as_str()) {
        Some(entries) => Ok(entries),
        None => Err(VaultError::Format(FormatFault::Entries)),
    }
}

} // verus!
