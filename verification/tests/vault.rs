use passman::vault::crypto::{
    decrypt_aes256gcm, derive_key, encrypt_aes256gcm, generate_password, pick_password_char,
};
use passman::vault::entry::Entry;
use passman::vault::error::VaultError;
use passman::vault::settings::AppSettings;
use passman::vault::storage::{generate_salt, load_entries, save_entries, try_get_salt, SALT_LEN};

#[test]
fn display_redacts_password() {
    let entry = Entry::new("svc".into(), "user".into(), "secret123".into(), None);
    let output = entry.to_string();
    assert!(!output.contains("secret123"));
    assert!(output.contains("[redacted]"));
}

#[test]
fn display_lists_fields_in_order() {
    let entry = Entry::new("svc".into(), "user".into(), "pw".into(), Some("note".into()));
    let expected = format!(
        "***\nuuid: {}\nservice: svc\nusername: user\npassword: [redacted]\nnotes: note\n",
        entry.uuid
    );
    assert_eq!(entry.to_string(), expected);
}

#[test]
fn new_entry_has_hyphenated_uuid() {
    let a = Entry::new("svc".into(), "user".into(), "pw".into(), None);
    let b = Entry::new("svc".into(), "user".into(), "pw".into(), None);
    assert_eq!(a.uuid.len(), 36);
    for i in [8, 13, 18, 23] {
        assert_eq!(a.uuid.as_bytes()[i], b'-');
    }
    assert_ne!(a.uuid, b.uuid);
    assert_eq!(a.password(), "pw");
}

#[test]
fn try_get_salt_rejects_short_file() {
    let data = [1u8, 2, 3];
    let err = try_get_salt(&data).unwrap_err();
    assert!(matches!(err, VaultError::Storage(_)));
    assert!(err.message().contains("too short"));
}

#[test]
fn short_file_message_gives_lengths() {
    let err = try_get_salt(&[1u8, 2, 3]).unwrap_err();
    assert_eq!(
        err.message(),
        "Storage file too short: expected at least 16 bytes, got 3"
    );
    let err = try_get_salt(&[]).unwrap_err();
    assert_eq!(
        err.message(),
        "Storage file too short: expected at least 16 bytes, got 0"
    );
}

#[test]
fn load_entries_rejects_short_file() {
    let key = [0u8; 32];
    let err = load_entries(&[0u8; 8], &key).unwrap_err();
    assert!(matches!(err, VaultError::Storage(_)));
    assert!(err.message().contains("too short"));
}

#[test]
fn try_get_salt_reads_valid_header() {
    let salt = [7u8; SALT_LEN];
    assert_eq!(try_get_salt(&salt).unwrap(), salt);
}

#[test]
fn storage_roundtrip_gives_back_salt_and_plaintext() {
    let key = [1u8; 32];
    let salt = [2u8; 16];
    let plaintext = br#"[{"uuid":"u","service":"svc","username":"user","password":"pw","notes":null}]"#;
    let file = save_entries(plaintext, &key, &salt).unwrap();
    assert_eq!(file.len(), 16 + 12 + plaintext.len() + 16);
    assert_eq!(&file[..16], &salt);
    assert_eq!(try_get_salt(&file).unwrap(), salt);
    assert_eq!(load_entries(&file, &key).unwrap(), plaintext.to_vec());
}

#[test]
fn storage_with_wrong_key_fails_authentication() {
    let file = save_entries(b"[]", &[1u8; 32], &[2u8; 16]).unwrap();
    let err = load_entries(&file, &[3u8; 32]).unwrap_err();
    assert!(matches!(err, VaultError::AesGcm(_)));
    assert_eq!(err.message(), "aead::Error");
}

#[test]
fn storage_without_nonce_is_short_ciphertext() {
    let mut file = vec![0u8; 16];
    file.extend_from_slice(&[9u8; 5]);
    let err = load_entries(&file, &[0u8; 32]).unwrap_err();
    assert!(matches!(err, VaultError::ShortCiphertext));
    assert_eq!(err.message(), "Ciphertext too short");
}

#[test]
fn save_with_short_key_is_refused() {
    let err = save_entries(b"[]", &[1u8; 16], &[2u8; 16]).unwrap_err();
    assert!(matches!(err, VaultError::InvalidKeyLength));
    assert_eq!(err.message(), "Invalid Length");
}

#[test]
fn sealing_uses_a_fresh_nonce_each_time() {
    let key = [5u8; 32];
    let a = encrypt_aes256gcm(&key, b"hello").unwrap();
    let b = encrypt_aes256gcm(&key, b"hello").unwrap();
    assert_ne!(a, b);
    assert_ne!(&a[12..12 + 5], b"hello");
    assert_eq!(decrypt_aes256gcm(&key, &a).unwrap(), b"hello".to_vec());
    assert_eq!(decrypt_aes256gcm(&key, &b).unwrap(), b"hello".to_vec());
}

#[test]
fn tampered_blob_does_not_open() {
    let key = [5u8; 32];
    let mut a = encrypt_aes256gcm(&key, b"hello").unwrap();
    let last = a.len() - 1;
    a[last] ^= 1;
    assert!(matches!(decrypt_aes256gcm(&key, &a), Err(VaultError::AesGcm(_))));
}

#[test]
fn derive_key_is_deterministic_and_salted() {
    let a = derive_key("master", &[1u8; 16]).unwrap();
    let b = derive_key("master", &[1u8; 16]).unwrap();
    let c = derive_key("master", &[2u8; 16]).unwrap();
    let d = derive_key("other", &[1u8; 16]).unwrap();
    assert_eq!(a, b);
    assert_ne!(a, c);
    assert_ne!(a, d);
}

#[test]
fn derive_key_refuses_short_salt() {
    let err = derive_key("master", &[1u8; 7]).unwrap_err();
    assert!(matches!(err, VaultError::Argon2(_)));
    assert_eq!(err.message(), "salt is too short");
}

#[test]
fn generated_salts_are_random() {
    let a = generate_salt();
    let b = generate_salt();
    assert_eq!(a.len(), 16);
    assert_ne!(a, b);
}

#[test]
fn generated_password_has_length_and_alphabet() {
    let alphabet = "abcdefghijklmnopqrstuvwxyzABCDEFGHIJKLMNOPQRSTUVWXYZ0123456789!@#$%^&*()-_=+[]{}<>?";
    for len in [0usize, 1, 12, 32, 100] {
        let p = generate_password(len);
        assert_eq!(p.chars().count(), len);
        assert!(p.chars().all(|c| alphabet.contains(c)));
    }
}

#[test]
fn default_settings_lock_after_five_minutes() {
    assert_eq!(AppSettings::default().auto_lock_secs, 300);
}

#[test]
fn display_is_the_same_whatever_the_password() {
    let a = Entry {
        uuid: "id".into(),
        service: "svc".into(),
        username: "user".into(),
        password: "one".into(),
        notes: None,
    };
    let b = Entry { password: "two".into(), ..a.clone() };
    assert_eq!(a.to_string(), b.to_string());
    assert_eq!(
        a.to_string(),
        "***\nuuid: id\nservice: svc\nusername: user\npassword: [redacted]\nnotes: \n"
    );
}

#[test]
fn new_entry_uuid_is_lowercase_version_4() {
    let e = Entry::new("svc".into(), "user".into(), "pw".into(), None);
    let b = e.uuid.as_bytes();
    assert_eq!(b[14], b'4');
    assert!(matches!(b[19], b'8' | b'9' | b'a' | b'b'));
    for (i, c) in e.uuid.chars().enumerate() {
        if [8, 13, 18, 23].contains(&i) {
            assert_eq!(c, '-');
        } else {
            assert!(c.is_ascii_digit() || ('a'..='f').contains(&c));
        }
    }
}

#[test]
fn password_char_is_picked_by_index() {
    assert_eq!(pick_password_char(0, 0), "a");
    assert_eq!(pick_password_char(0, 1), "b");
    assert_eq!(pick_password_char(0, 26), "A");
    assert_eq!(pick_password_char(0, 52), "0");
    assert_eq!(pick_password_char(0, 83), "a");
    assert_eq!(pick_password_char(1, 0), "h");
}
