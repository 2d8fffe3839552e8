use aes_gcm::aead::Aead;
use aes_gcm::{Aes256Gcm, KeyInit, Nonce};
use base64::Engine;
use passgen::codec::{
    decode_entries, encode_entries, read_envelope, seal, seal_with_nonce, unseal, write_envelope,
    Envelope,
};
use passgen::error::{FormatFault, IoFault, VaultError};
use passgen::kdf::derive_key;
use passgen::storage::{PasswordEntry, Storage, VaultFile};
use std::collections::hash_map::DefaultHasher;
use std::hash::{Hash, Hasher};

fn entry(name: &str, password: &str, created_at: &str) -> PasswordEntry {
    PasswordEntry {
        name: name.to_string(),
        password: password.to_string(),
        created_at: created_at.to_string(),
    }
}

fn plain(entries: &[PasswordEntry]) -> Vec<(String, String, String)> {
    entries
        .iter()
        .map(|e| (e.name.clone(), e.password.clone(), e.created_at.clone()))
        .collect()
}

fn triple(name: &str, password: &str, created_at: &str) -> (String, String, String) {
    (name.to_string(), password.to_string(), created_at.to_string())
}

fn b64(bytes: &[u8]) -> String {
    base64::engine::general_purpose::STANDARD.encode(bytes)
}

fn unb64(text: &str) -> Vec<u8> {
    base64::engine::general_purpose::STANDARD.decode(text).unwrap()
}

fn open(passphrase: &str, file: &VaultFile) -> Storage {
    Storage::new("/home/op/.passgen_vault.enc".to_string(), passphrase, file).unwrap()
}

fn present(text: String) -> VaultFile {
    VaultFile::Present(text)
}

/// The key derivation written out with the hasher used directly.
fn reference_key(password: &str, salt: &[u8]) -> [u8; 32] {
    let mut key = [0u8; 32];
    let combined: Vec<u8> = password.as_bytes().iter().chain(salt.iter()).copied().collect();
    for i in 0..32 {
        let mut hasher = DefaultHasher::new();
        combined.hash(&mut hasher);
        (i as u64).hash(&mut hasher);
        let hash = hasher.finish();
        key[i] = (hash & 0xFF) as u8;
    }
    for _ in 0..10000 {
        let mut hasher = DefaultHasher::new();
        key.hash(&mut hasher);
        salt.hash(&mut hasher);
        let hash = hasher.finish().to_le_bytes();
        for (i, &b) in hash.iter().enumerate() {
            key[i % 32] ^= b;
        }
    }
    key
}

#[test]
fn derive_key_matches_the_hasher_construction() {
    let cases: Vec<(&str, Vec<u8>)> = vec![
        ("hunter2", vec![0u8; 16]),
        ("hunter2", (0u8..16).collect()),
        ("", vec![]),
        ("pässwörd ✓", vec![255, 0, 17]),
        ("a much longer passphrase with several words in it", vec![9u8; 40]),
    ];
    for (password, salt) in cases {
        assert_eq!(derive_key(password, &salt), reference_key(password, &salt));
    }
}

#[test]
fn derive_key_is_deterministic() {
    let salt = [7u8; 16];
    let first = derive_key("correct horse", &salt);
    let second = derive_key("correct horse", &salt);
    assert_eq!(first, second);
    assert_eq!(first.len(), 32);
}

#[test]
fn derive_key_depends_on_passphrase_and_salt() {
    let base = derive_key("correct horse", &[7u8; 16]);
    assert_ne!(base, derive_key("correct horse", &[8u8; 16]));
    assert_ne!(base, derive_key("correct horsf", &[7u8; 16]));
    assert_ne!(base, derive_key("", &[7u8; 16]));
    assert_ne!(base, [0u8; 32]);
}

#[test]
fn derive_key_output_is_32_bytes_for_any_passphrase_length() {
    let long = "x".repeat(5000);
    assert_eq!(derive_key(&long, &[1u8; 16]).len(), 32);
    assert_eq!(derive_key("", &[1u8; 16]).len(), 32);
}

#[test]
fn encode_entries_writes_a_compact_json_list() {
    let entries = vec![entry("github", "s3cr3t", "1700000000"), entry("b", "c", "1")];
    assert_eq!(
        encode_entries(&entries),
        "[{\"created_at\":\"1700000000\",\"name\":\"github\",\"password\":\"s3cr3t\"},\
         {\"created_at\":\"1\",\"name\":\"b\",\"password\":\"c\"}]"
    );
    assert_eq!(encode_entries(&Vec::new()), "[]");
}

#[test]
fn encode_entries_escapes_what_json_must_escape() {
    let entries = vec![entry("a\"b", "back\\slash\nnewline", "0")];
    assert_eq!(
        encode_entries(&entries),
        "[{\"created_at\":\"0\",\"name\":\"a\\\"b\",\"password\":\"back\\\\slash\\nnewline\"}]"
    );
}

#[test]
fn decode_entries_reads_members_in_any_order_and_ignores_others() {
    let text = "[{\"name\":\"n\",\"password\":\"p\",\"created_at\":\"5\"},\
                {\"password\":\"q\",\"extra\":\"x\",\"created_at\":\"6\",\"name\":\"m\"}]";
    let entries = decode_entries(text).unwrap();
    assert_eq!(plain(&entries), vec![triple("n", "p", "5"), triple("m", "q", "6")]);
}

#[test]
fn decode_entries_refuses_malformed_lists() {
    assert!(decode_entries("").is_none());
    assert!(decode_entries("not json").is_none());
    assert!(decode_entries("{}").is_none());
    assert!(decode_entries("[{\"name\":\"n\",\"password\":\"p\"}]").is_none());
    assert!(decode_entries("[{\"name\":\"n\",\"password\":\"p\",\"created_at\":5}]").is_none());
    assert!(decode_entries("[\"name\"]").is_none());
    assert!(decode_entries("[{\"name\":\"n\",\"password\":\"p\",\"created_at\":\"5\"},{}]").is_none());
    assert_eq!(decode_entries("[]").unwrap().len(), 0);
}

#[test]
fn entries_round_trip_through_text() {
    let lists: Vec<Vec<PasswordEntry>> = vec![
        vec![],
        vec![entry("a", "b", "1")],
        vec![entry("", "", ""), entry("dup", "x", "2"), entry("dup", "x", "2")],
        vec![entry("ünï©ödé ✓", "\u{0}\u{1f}\"\\/\u{7f}", "9"), entry("tab\there", "{}[],:", "3")],
    ];
    for entries in lists {
        let text = encode_entries(&entries);
        let back = decode_entries(&text).unwrap();
        assert_eq!(plain(&back), plain(&entries));
    }
}

#[test]
fn write_envelope_writes_an_indented_object() {
    let envelope = Envelope {
        salt: "c2FsdA==".to_string(),
        nonce: "bm9uY2U=".to_string(),
        ciphertext: "Y2lwaGVy".to_string(),
    };
    assert_eq!(
        write_envelope(&envelope),
        "{\n  \"ciphertext\": \"Y2lwaGVy\",\n  \"nonce\": \"bm9uY2U=\",\n  \"salt\": \"c2FsdA==\"\n}"
    );
}

#[test]
fn read_envelope_reads_the_three_fields() {
    let text = "{ \"salt\": \"S\", \"nonce\": \"N\", \"ciphertext\": \"C\", \"note\": \"kept out\" }";
    let envelope = read_envelope(text).unwrap();
    assert_eq!(envelope.salt, "S");
    assert_eq!(envelope.nonce, "N");
    assert_eq!(envelope.ciphertext, "C");
}

#[test]
fn read_envelope_refuses_what_is_no_envelope() {
    assert!(read_envelope("").is_none());
    assert!(read_envelope("[]").is_none());
    assert!(read_envelope("{\"salt\":\"S\",\"nonce\":\"N\"}").is_none());
    assert!(read_envelope("{\"salt\":\"S\",\"nonce\":\"N\",\"ciphertext\":7}").is_none());
    assert!(read_envelope("{\"salt\":\"S\",\"nonce\":\"N\",\"ciphertext\":\"C\"} trailing").is_none());
}

#[test]
fn envelope_round_trips_through_text() {
    let envelope = Envelope {
        salt: "AAAA".to_string(),
        nonce: "with \"quotes\" and \n newline".to_string(),
        ciphertext: String::new(),
    };
    let back = read_envelope(&write_envelope(&envelope)).unwrap();
    assert_eq!(back.salt, envelope.salt);
    assert_eq!(back.nonce, envelope.nonce);
    assert_eq!(back.ciphertext, envelope.ciphertext);
}

#[test]
fn seal_with_nonce_is_aes_256_gcm_over_the_entries_text() {
    let entries = vec![entry("github", "s3cr3t", "1700000000")];
    let key = [0x42u8; 32];
    let nonce = [7u8; 12];
    let envelope = seal_with_nonce(&entries, &key, "c2FsdA==".to_string(), &nonce).unwrap();

    let text = encode_entries(&entries);
    let expected = Aes256Gcm::new_from_slice(&key)
        .unwrap()
        .encrypt(Nonce::from_slice(&nonce), text.as_bytes())
        .unwrap();
    assert_eq!(envelope.salt, "c2FsdA==");
    assert_eq!(envelope.nonce, "BwcHBwcHBwcHBwcH");
    assert_eq!(envelope.ciphertext, b64(&expected));
    assert_eq!(unb64(&envelope.ciphertext).len(), text.len() + 16);
    assert_ne!(&unb64(&envelope.ciphertext)[..text.len()], text.as_bytes());
}

#[test]
fn seal_with_nonce_matches_a_known_vector() {
    // AES-256-GCM, all-zero key and nonce, the two-byte plaintext "[]".
    let envelope = seal_with_nonce(&Vec::new(), &[0u8; 32], String::new(), &[0u8; 12]).unwrap();
    let sealed = unb64(&envelope.ciphertext);
    assert_eq!(sealed.len(), 18);
    // The keystream of this key and nonce starts with the bytes ce a7.
    assert_eq!(sealed[0], 0xce ^ b'[');
    assert_eq!(sealed[1], 0xa7 ^ b']');
    assert_eq!(envelope.nonce, "AAAAAAAAAAAAAAAA");
}

#[test]
fn seal_then_unseal_gives_the_entries_back() {
    let lists: Vec<Vec<PasswordEntry>> = vec![
        vec![],
        vec![entry("a", "b", "1")],
        vec![entry("x", "y", "2"), entry("ünï ✓", "\"\\\n", "3"), entry("x", "y", "2")],
    ];
    for entries in lists {
        let key = derive_key("hunter2", &[3u8; 16]);
        let envelope = seal(&entries, &key, "AwMDAwMDAwMDAwMDAwMDAw==".to_string()).unwrap();
        assert_eq!(envelope.salt, "AwMDAwMDAwMDAwMDAwMDAw==");
        assert_eq!(unb64(&envelope.nonce).len(), 12);
        let back = unseal(&envelope, &key).unwrap();
        assert_eq!(plain(&back), plain(&entries));
    }
}

#[test]
fn seal_draws_a_fresh_nonce_each_time() {
    let entries = vec![entry("a", "b", "1")];
    let key = [1u8; 32];
    let first = seal(&entries, &key, String::new()).unwrap();
    let second = seal(&entries, &key, String::new()).unwrap();
    assert_ne!(first.nonce, second.nonce);
    assert_ne!(first.ciphertext, second.ciphertext);
}

#[test]
fn unseal_with_another_key_is_an_authentication_fault() {
    let entries = vec![entry("a", "b", "1")];
    let envelope = seal(&entries, &[1u8; 32], String::new()).unwrap();
    assert_eq!(unseal(&envelope, &[2u8; 32]).err(), Some(VaultError::Authentication));
}

#[test]
fn unseal_of_a_tampered_ciphertext_is_an_authentication_fault() {
    let entries = vec![entry("a", "b", "1")];
    let key = [1u8; 32];
    let mut envelope = seal(&entries, &key, String::new()).unwrap();
    let mut sealed = unb64(&envelope.ciphertext);
    sealed[0] ^= 1;
    envelope.ciphertext = b64(&sealed);
    assert_eq!(unseal(&envelope, &key).err(), Some(VaultError::Authentication));

    let mut truncated = seal(&entries, &key, String::new()).unwrap();
    truncated.ciphertext = b64(&[1, 2, 3]);
    assert_eq!(unseal(&truncated, &key).err(), Some(VaultError::Authentication));
}

#[test]
fn unseal_reports_which_part_is_malformed() {
    let key = [1u8; 32];
    let good = seal(&vec![entry("a", "b", "1")], &key, String::new()).unwrap();

    let bad_nonce = Envelope {
        salt: String::new(),
        nonce: "***".to_string(),
        ciphertext: good.ciphertext.clone(),
    };
    assert_eq!(unseal(&bad_nonce, &key).err(), Some(VaultError::Format(FormatFault::Nonce)));

    let short_nonce = Envelope {
        salt: String::new(),
        nonce: b64(&[0u8; 11]),
        ciphertext: good.ciphertext.clone(),
    };
    assert_eq!(unseal(&short_nonce, &key).err(), Some(VaultError::Format(FormatFault::Nonce)));

    let bad_ciphertext = Envelope {
        salt: String::new(),
        nonce: good.nonce.clone(),
        ciphertext: "not base64!".to_string(),
    };
    assert_eq!(
        unseal(&bad_ciphertext, &key).err(),
        Some(VaultError::Format(FormatFault::Ciphertext))
    );

    let short_nonce_bad_ciphertext = Envelope {
        salt: String::new(),
        nonce: b64(&[0u8; 11]),
        ciphertext: "not base64!".to_string(),
    };
    assert_eq!(
        unseal(&short_nonce_bad_ciphertext, &key).err(),
        Some(VaultError::Format(FormatFault::Ciphertext))
    );
}

fn sealed_raw(key: &[u8; 32], nonce: &[u8; 12], plaintext: &[u8]) -> Envelope {
    let sealed = Aes256Gcm::new_from_slice(key)
        .unwrap()
        .encrypt(Nonce::from_slice(nonce), plaintext)
        .unwrap();
    Envelope { salt: String::new(), nonce: b64(nonce), ciphertext: b64(&sealed) }
}

#[test]
fn unseal_of_bytes_that_are_no_text_is_a_format_fault() {
    let key = [5u8; 32];
    let envelope = sealed_raw(&key, &[9u8; 12], &[0xff, 0xfe, 0x80]);
    assert_eq!(unseal(&envelope, &key).err(), Some(VaultError::Format(FormatFault::Utf8)));
}

#[test]
fn unseal_of_text_that_is_no_entry_list_is_a_format_fault() {
    let key = [5u8; 32];
    let envelope = sealed_raw(&key, &[9u8; 12], b"{\"name\":\"n\"}");
    assert_eq!(unseal(&envelope, &key).err(), Some(VaultError::Format(FormatFault::Entries)));
}

#[test]
fn unseal_reads_what_any_aes_gcm_sealed() {
    let key = [5u8; 32];
    let envelope = sealed_raw(
        &key,
        &[9u8; 12],
        b"[{\"name\":\"n\",\"password\":\"p\",\"created_at\":\"5\"}]",
    );
    assert_eq!(plain(&unseal(&envelope, &key).unwrap()), vec![triple("n", "p", "5")]);
}

#[test]
fn opening_a_missing_vault_draws_a_salt_and_writes_nothing() {
    let store = open("hunter2", &VaultFile::Missing);
    assert_eq!(store.path(), "/home/op/.passgen_vault.enc");
    assert_eq!(store.load(&VaultFile::Missing).unwrap().len(), 0);
}

#[test]
fn opening_fails_on_an_unreadable_or_malformed_file() {
    let path = String::from("p");
    assert_eq!(
        Storage::new(path.clone(), "pw", &VaultFile::Unreadable).err(),
        Some(VaultError::Io(IoFault::Read))
    );
    assert_eq!(
        Storage::new(path.clone(), "pw", &present("garbage".to_string())).err(),
        Some(VaultError::Format(FormatFault::Envelope))
    );
    assert_eq!(
        Storage::new(
            path.clone(),
            "pw",
            &present("{\"salt\":\"!!\",\"nonce\":\"\",\"ciphertext\":\"\"}".to_string())
        )
        .err(),
        Some(VaultError::Format(FormatFault::Salt))
    );
}

#[test]
fn load_fails_on_an_unreadable_or_malformed_file() {
    let store = open("pw", &VaultFile::Missing);
    assert_eq!(store.load(&VaultFile::Unreadable).err(), Some(VaultError::Io(IoFault::Read)));
    assert_eq!(
        store.load(&present("[1, 2]".to_string())).err(),
        Some(VaultError::Format(FormatFault::Envelope))
    );
}

#[test]
fn first_save_creates_the_file_with_the_salt_of_the_store() {
    let store = open("hunter2", &VaultFile::Missing);
    let text = store.save(&VaultFile::Missing, entry("github", "pw", "1")).unwrap();
    let envelope = read_envelope(&text).unwrap();
    let salt = unb64(&envelope.salt);
    assert_eq!(salt.len(), 16);
    assert_eq!(unb64(&envelope.nonce).len(), 12);

    // The key of the store is the one that the salt in the file derives.
    let key = derive_key("hunter2", &salt);
    assert_eq!(plain(&unseal(&envelope, &key).unwrap()), vec![triple("github", "pw", "1")]);

    // So the vault opens again with the same passphrase.
    let file = present(text);
    let reopened = open("hunter2", &file);
    assert_eq!(plain(&reopened.load(&file).unwrap()), vec![triple("github", "pw", "1")]);
}

#[test]
fn two_new_vaults_get_different_salts() {
    let first = open("pw", &VaultFile::Missing).save_all(&VaultFile::Missing, &Vec::new()).unwrap();
    let second = open("pw", &VaultFile::Missing).save_all(&VaultFile::Missing, &Vec::new()).unwrap();
    assert_ne!(read_envelope(&first).unwrap().salt, read_envelope(&second).unwrap().salt);
}

#[test]
fn saves_accumulate_in_call_order() {
    let store = open("hunter2", &VaultFile::Missing);
    let mut file = VaultFile::Missing;
    let mut expected = Vec::new();
    for i in 0..7 {
        let name = format!("site{}", i);
        let text = store.save(&file, entry(&name, "pw", "1")).unwrap();
        file = present(text);
        expected.push(triple(&name, "pw", "1"));
        assert_eq!(plain(&store.load(&file).unwrap()), expected);
    }
    assert_eq!(store.load(&file).unwrap().len(), 7);
}

#[test]
fn every_rewrite_keeps_the_salt_and_changes_the_nonce() {
    let store = open("hunter2", &VaultFile::Missing);
    let first = store.save(&VaultFile::Missing, entry("a", "b", "1")).unwrap();
    let second = store.save(&present(first.clone()), entry("c", "d", "2")).unwrap();
    let third = store.delete(&present(second.clone()), 0).unwrap();
    let envelopes: Vec<Envelope> =
        vec![first, second, third].iter().map(|t| read_envelope(t).unwrap()).collect();
    assert_eq!(envelopes[0].salt, envelopes[1].salt);
    assert_eq!(envelopes[1].salt, envelopes[2].salt);
    assert_ne!(envelopes[0].nonce, envelopes[1].nonce);
    assert_ne!(envelopes[1].nonce, envelopes[2].nonce);
}

#[test]
fn save_fails_where_the_load_fails() {
    let store = open("hunter2", &VaultFile::Missing);
    let file = present(store.save(&VaultFile::Missing, entry("a", "b", "1")).unwrap());
    let other = open("wrong", &file);
    assert_eq!(other.save(&file, entry("c", "d", "2")).err(), Some(VaultError::Authentication));
    assert_eq!(
        store.save(&VaultFile::Unreadable, entry("c", "d", "2")).err(),
        Some(VaultError::Io(IoFault::Read))
    );
    assert_eq!(
        store.save(&present("junk".to_string()), entry("c", "d", "2")).err(),
        Some(VaultError::Format(FormatFault::Envelope))
    );
}

fn vault_abc() -> (Storage, VaultFile) {
    let store = open("hunter2", &VaultFile::Missing);
    let mut file = VaultFile::Missing;
    for name in ["a", "b", "c"] {
        file = present(store.save(&file, entry(name, name, "1")).unwrap());
    }
    (store, file)
}

fn names(entries: &[PasswordEntry]) -> Vec<String> {
    entries.iter().map(|e| e.name.clone()).collect()
}

#[test]
fn delete_removes_the_entry_at_the_index() {
    let (store, file) = vault_abc();
    let after = present(store.delete(&file, 1).unwrap());
    assert_eq!(names(&store.load(&after).unwrap()), vec!["a", "c"]);
    let after = present(store.delete(&after, 1).unwrap());
    assert_eq!(names(&store.load(&after).unwrap()), vec!["a"]);
    let after = present(store.delete(&after, 0).unwrap());
    assert_eq!(store.load(&after).unwrap().len(), 0);
}

#[test]
fn delete_out_of_range_fails_and_leaves_the_vault_unchanged() {
    let (store, file) = vault_abc();
    assert_eq!(store.delete(&file, 5).err(), Some(VaultError::Index));
    assert_eq!(store.delete(&file, 3).err(), Some(VaultError::Index));
    assert_eq!(names(&store.load(&file).unwrap()), vec!["a", "b", "c"]);
    assert_eq!(store.delete(&VaultFile::Missing, 0).err(), Some(VaultError::Index));
}

#[test]
fn update_replaces_only_the_entry_at_the_index() {
    let (store, file) = vault_abc();
    let after = present(store.update(&file, 1, entry("B", "new", "2")).unwrap());
    assert_eq!(
        plain(&store.load(&after).unwrap()),
        vec![triple("a", "a", "1"), triple("B", "new", "2"), triple("c", "c", "1")]
    );
}

#[test]
fn update_out_of_range_fails_and_leaves_the_vault_unchanged() {
    let (store, file) = vault_abc();
    assert_eq!(store.update(&file, 3, entry("x", "x", "1")).err(), Some(VaultError::Index));
    assert_eq!(names(&store.load(&file).unwrap()), vec!["a", "b", "c"]);
}

#[test]
fn loading_with_the_wrong_passphrase_is_an_authentication_fault() {
    let (_, file) = vault_abc();
    let wrong = open("wrong", &file);
    assert_eq!(wrong.load(&file).err(), Some(VaultError::Authentication));
    assert_eq!(wrong.delete(&file, 0).err(), Some(VaultError::Authentication));
    assert_eq!(wrong.update(&file, 0, entry("x", "x", "1")).err(), Some(VaultError::Authentication));
    assert_eq!(
        wrong.change_master_password(&file, "new").err().map(|e| e),
        Some(VaultError::Authentication)
    );
}

#[test]
fn change_master_password_moves_the_vault_to_the_new_passphrase() {
    let (store, file) = vault_abc();
    let before = plain(&store.load(&file).unwrap());
    let old_salt = read_envelope(match &file {
        VaultFile::Present(text) => text,
        _ => unreachable!(),
    })
    .unwrap()
    .salt;

    let (rotated, text) = store.change_master_password(&file, "n3w").unwrap();
    let after = present(text.clone());
    assert_eq!(rotated.path(), store.path());
    assert_ne!(read_envelope(&text).unwrap().salt, old_salt);

    // The returned store, and a store opened afresh with the new passphrase, read the same.
    assert_eq!(plain(&rotated.load(&after).unwrap()), before);
    assert_eq!(plain(&open("n3w", &after).load(&after).unwrap()), before);

    // The old passphrase, and the old store, no longer open the vault.
    assert_eq!(open("hunter2", &after).load(&after).err(), Some(VaultError::Authentication));
    assert_eq!(store.load(&after).err(), Some(VaultError::Authentication));
}

#[test]
fn rotate_is_exact_for_a_given_salt_and_nonce() {
    let (store, file) = vault_abc();
    let entries = store.load(&file).unwrap();
    let salt = [0x11u8; 16];
    let nonce = [0x22u8; 12];
    let (rotated, text) = store.rotate(&file, "n3w", &salt, &nonce).unwrap();

    let key = derive_key("n3w", &salt);
    let expected = seal_with_nonce(&entries, &key, b64(&salt), &nonce).unwrap();
    assert_eq!(text, write_envelope(&expected));
    assert_eq!(plain(&rotated.load(&present(text)).unwrap()), plain(&entries));
}

#[test]
fn save_all_with_nonce_is_exact() {
    let store = Storage::with_salt("p".to_string(), "hunter2", &[4u8; 16]);
    let entries = vec![entry("a", "b", "1"), entry("c", "d", "2")];
    let nonce = [6u8; 12];
    let text = store.save_all_with_nonce(&VaultFile::Missing, &entries, &nonce).unwrap();
    let key = derive_key("hunter2", &[4u8; 16]);
    let expected = seal_with_nonce(&entries, &key, b64(&[4u8; 16]), &nonce).unwrap();
    assert_eq!(text, write_envelope(&expected));

    // Over an existing file the salt text already there is kept, whatever it is.
    let existing = present(
        "{\"salt\":\"BAQEBAQEBAQEBAQEBAQEBA==\",\"nonce\":\"x\",\"ciphertext\":\"y\"}".to_string(),
    );
    let text = store.save_all_with_nonce(&existing, &entries, &nonce).unwrap();
    assert_eq!(read_envelope(&text).unwrap().salt, "BAQEBAQEBAQEBAQEBAQEBA==");
}

#[test]
fn a_cloned_entry_has_the_same_fields() {
    let first = entry("a", "b", "1");
    assert_eq!(plain(&[first.clone()]), vec![triple("a", "b", "1")]);
}

#[test]
fn fault_messages() {
    assert_eq!(VaultError::Io(IoFault::Read).message(), "Failed to read file");
    assert_eq!(VaultError::Io(IoFault::Write).message(), "Failed to write file");
    assert_eq!(VaultError::Format(FormatFault::Envelope).message(), "Invalid file format");
    assert_eq!(VaultError::Format(FormatFault::Salt).message(), "Invalid salt");
    assert_eq!(VaultError::Format(FormatFault::Nonce).message(), "Invalid nonce");
    assert_eq!(VaultError::Format(FormatFault::Ciphertext).message(), "Invalid ciphertext");
    assert_eq!(VaultError::Format(FormatFault::Utf8).message(), "Invalid UTF-8");
    assert_eq!(VaultError::Format(FormatFault::Entries).message(), "Invalid JSON");
    assert_eq!(VaultError::Authentication.message(), "wrong master password?");
    assert_eq!(VaultError::Index.message(), "Invalid index");
    assert_eq!(VaultError::TooLarge.message(), "Encryption failed");
}

/// The room reckoned for the plaintext of a list of entries.
fn room(entries: &[PasswordEntry]) -> usize {
    2 + entries
        .iter()
        .map(|e| {
            153 + 6 * (e.name.chars().count()
                + e.password.chars().count()
                + e.created_at.chars().count())
        })
        .sum::<usize>()
}

#[test]
fn the_plaintext_is_never_longer_than_its_room() {
    let every_escape: String = (0u8..0x20).map(|b| b as char).chain(['"', '\\', '/', '\u{7f}']).collect();
    let lists: Vec<Vec<PasswordEntry>> = vec![
        vec![],
        vec![entry("", "", "")],
        vec![entry("a", "b", "1")],
        vec![entry(&"\u{0}".repeat(500), &"\u{1f}".repeat(500), &"\u{b}".repeat(500))],
        vec![entry(&every_escape, &every_escape, &every_escape); 20],
        vec![entry(&"é".repeat(100), &"✓".repeat(100), &"\u{10ffff}".repeat(100)); 3],
        (0..200).map(|i| entry(&format!("site{}", i), "pw", "1700000000")).collect(),
    ];
    for entries in lists {
        let text = encode_entries(&entries);
        assert!(text.len() <= room(&entries), "{} > {}", text.len(), room(&entries));
    }
    // The longest escape takes the whole room of a character.
    let worst = vec![entry(&"\u{1}".repeat(10), "", "")];
    assert_eq!(encode_entries(&worst).len(), 2 + 41 + 6 * 10);
    assert_eq!(room(&worst), 2 + 153 + 6 * 10);
}
