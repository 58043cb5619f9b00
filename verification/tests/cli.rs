use passman::cli::{add_password, generate_password, remove_password};
use passman::entry::Entry;

#[test]
fn cli_password_lengths() {
    assert_eq!(generate_password(0).len(), 12);
    assert_eq!(generate_password(1).len(), 16);
    assert_eq!(generate_password(2).len(), 20);
    assert_eq!(generate_password(3).len(), 24);
    assert_eq!(generate_password(7).len(), 16);
}

#[test]
fn cli_add_and_remove() {
    let mut entries: Vec<Entry> = Vec::new();
    add_password(&mut entries, "a".into(), "u".into(), "p".into(), "".into());
    add_password(&mut entries, "b".into(), "u".into(), "p".into(), "n".into());
    add_password(&mut entries, "c".into(), "u".into(), "p".into(), "".into());
    assert!(entries[0].notes.is_none());
    assert_eq!(entries[1].notes.as_deref(), Some("n"));
    let target = entries[1].uuid.clone();
    remove_password(&mut entries, &target);
    assert_eq!(entries.len(), 2);
    assert_eq!(entries[0].service, "a");
    assert_eq!(entries[1].service, "c");
    remove_password(&mut entries, &"nope".to_string());
    assert_eq!(entries.len(), 2);
}

#[test]
fn cli_listing_shows_password() {
    let e = Entry {
        uuid: "id".into(),
        service: "svc".into(),
        username: "user".into(),
        password: "pw".into(),
        notes: None,
    };
    assert_eq!(
        e.to_string(),
        "***\nuuid: id\nservice: svc\nusername: user\npassword: pw\nnotes: \n"
    );
}
