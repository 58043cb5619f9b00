use passman::gui::auth::Auth;
use passman::gui::command::{Cmd, Command, Effect};
use passman::gui::editor::{EditorState, Main};
use passman::gui::entries::Entries;
use passman::gui::error::GuiError;
use passman::gui::security::Security;
use passman::gui::session::Session;
use passman::gui::state::State;
use passman::gui::status::{Color, Status};
use passman::gui::table::{search_match, CopyField};
use passman::gui::widgets::{menu_command, EntryMenuAction};
use passman::vault::crypto::derive_key;
use passman::vault::entry::Entry;
use passman::vault::error::{Argon2Failure, VaultError};
use passman::vault::settings::AppSettings;
use passman::vault::storage::{load_entries, try_get_salt};

fn entry_json(e: &Entry) -> Vec<u8> {
    format!(
        r#"[{{"uuid":"{}","service":"{}","username":"{}","password":"{}","notes":null}}]"#,
        e.uuid, e.service, e.username, e.password
    )
    .into_bytes()
}

#[test]
fn change_master_password_rotates_salt() {
    let old_salt = [1u8; 16];
    let old_key = derive_key("old-pass", &old_salt).unwrap();
    let mut auth = Auth::from_parts(old_key, old_salt);

    let mut entries = Entries::default();
    entries.add(Entry::new("svc".into(), "user".into(), "pw".into(), None));
    let plaintext = entry_json(entries.get(0));

    let change = match auth.change_master_password("old-pass", "new-pass", &plaintext) {
        Ok(c) => c,
        Err(e) => panic!("{:?}", e),
    };
    let file = change.file.clone();
    auth.install(change);

    assert_ne!(auth.salt(), &old_salt);
    assert!(auth.verify_master_password("new-pass").is_ok());
    assert!(auth.verify_master_password("old-pass").is_err());
    assert_eq!(try_get_salt(&file).unwrap(), auth.salt());
    assert_eq!(load_entries(&file, auth.key()).unwrap(), plaintext);
}

#[test]
fn change_master_password_rejects_wrong_current() {
    let salt = [1u8; 16];
    let auth = Auth::from_parts(derive_key("right", &salt).unwrap(), salt);
    let err = match auth.change_master_password("wrong", "new", b"[]") {
        Err(e) => e,
        Ok(_) => panic!("a wrong password was accepted"),
    };
    assert!(matches!(err, GuiError::InvalidMasterPassword));
    assert_eq!(err.message(), "Current master password is incorrect");
}

#[test]
fn unlock_reads_salt_from_file() {
    let salt = [4u8; 16];
    let mut file = salt.to_vec();
    file.extend_from_slice(&[0u8; 40]);
    let mut auth = Auth::default();
    auth.master_mut().push_str("master");
    auth.unlock(Some(&file)).unwrap();
    assert_eq!(auth.salt(), &salt);
    assert_eq!(auth.key(), &derive_key("master", &salt).unwrap());
    assert!(auth.master_mut().is_empty());
}

#[test]
fn unlock_with_short_file_keeps_master() {
    let mut auth = Auth::default();
    auth.master_mut().push_str("master");
    let err = auth.unlock(Some(&[1, 2, 3])).unwrap_err();
    assert!(matches!(err, GuiError::Core(VaultError::Storage(_))));
    assert_eq!(auth.master_mut().as_str(), "master");
}

#[test]
fn clear_wipes_key_and_salt() {
    let mut auth = Auth::from_parts([9u8; 32], [8u8; 16]);
    auth.master_mut().push_str("x");
    auth.clear();
    assert_eq!(auth.key(), &[0u8; 32]);
    assert_eq!(auth.salt(), &[0u8; 16]);
    assert!(auth.master_mut().is_empty());
}

#[test]
fn first_command_wins() {
    let mut c = Command::default();
    c.set(Cmd::Backup);
    c.set(Cmd::Lock);
    assert!(matches!(c.take(), Some(Cmd::Backup)));
    assert!(c.take().is_none());
    c.set(Cmd::RemoveEntry(3));
    assert!(matches!(c.take(), Some(Cmd::RemoveEntry(3))));
}

#[test]
fn session_clamps_timeout() {
    let mut s = Session::new(AppSettings { auto_lock_secs: 300 });
    assert_eq!(s.set_auto_lock_secs(5).auto_lock_secs, 60);
    assert_eq!(s.auto_lock_secs(), 60);
    assert_eq!(s.set_auto_lock_secs(99_999).auto_lock_secs, 3600);
    assert_eq!(s.set_auto_lock_secs(600).auto_lock_secs, 600);
}

#[test]
fn session_locks_after_timeout() {
    let mut s = Session::new(AppSettings { auto_lock_secs: 60 });
    assert!(!s.should_lock(1_000_000));
    s.touch(100);
    assert!(!s.should_lock(100));
    assert!(!s.should_lock(159));
    assert!(s.should_lock(160));
    assert!(!s.should_lock(50));
}

#[test]
fn security_clears_only_passwords() {
    let mut sec = Security::default();
    sec.current.push_str("a");
    sec.new.push_str("b");
    sec.confirm.push_str("c");
    sec.settings_open = true;
    sec.auto_lock_secs = 120;
    sec.clear_password_fields();
    assert!(sec.current.is_empty() && sec.new.is_empty() && sec.confirm.is_empty());
    assert!(sec.settings_open);
    assert_eq!(sec.auto_lock_secs, 120);
}

#[test]
fn status_texts_and_colors() {
    let mut st = Status::default();
    assert!(st.is_locked());
    assert_eq!(st.status(), "🔒 Locked");
    assert_eq!(st.color(), Color::Transparent);
    st.unlock();
    assert!(!st.is_locked());
    assert_eq!(st.status(), "🔓 Unlocked");
    assert_eq!(st.color(), Color::Green);
    st.error("boom".to_string());
    assert_eq!(st.status(), "❎ : boom");
    assert_eq!(st.color(), Color::Red);
    assert!(!st.is_locked());
    st.message("ok".to_string());
    assert_eq!(st.status(), "✅ : ok");
    st.lock();
    assert!(st.is_locked());
    assert_eq!(st.color(), Color::Red);
}

#[test]
fn editor_takes_trimmed_fields() {
    let mut m = Main::default();
    m.idx = Some(2);
    m.service = "  svc ".into();
    m.username = "user\t".into();
    m.password = " pw ".into();
    m.notes = "  ".into();
    let (idx, e) = m.take_edit_data().unwrap();
    assert_eq!(idx, Some(2));
    assert_eq!(e.service, "svc");
    assert_eq!(e.username, "user");
    assert_eq!(e.password, "pw");
    assert!(e.notes.is_none());
    assert!(m.idx.is_none() && m.service.is_empty() && m.username.is_empty());
    assert!(m.password.is_empty());
    assert_eq!(m.notes, "  ");

    m.service = "s".into();
    m.username = "u".into();
    m.password = "p".into();
    m.notes = " n ".into();
    let (_, e) = m.take_edit_data().unwrap();
    assert_eq!(e.notes.as_deref(), Some("n"));
    assert!(m.notes.is_empty());
}

#[test]
fn editor_refuses_blank_required_field() {
    let mut m = Main::default();
    m.service = "svc".into();
    m.username = "   ".into();
    m.password = "pw".into();
    assert!(m.is_empty());
    let err = match m.take_edit_data() {
        Err(e) => e,
        Ok(_) => panic!("blank fields were taken"),
    };
    assert!(matches!(err, GuiError::EmptyData));
    assert_eq!(err.message(), "Required fields are not filled in");
    assert_eq!(m.service, "svc");
    assert_eq!(m.password, "pw");
}

#[test]
fn editor_open_states_and_reset() {
    let mut m = Main::default();
    assert!(!m.is_open());
    m.editor_state = EditorState::New;
    assert!(m.is_open());
    m.editor_state = EditorState::Edit;
    assert!(m.is_open());
    m.service = "a".into();
    m.show = true;
    m.err_color();
    assert_eq!(m.color, Color::Red);
    m.reset_editor();
    assert!(m.service.is_empty() && !m.show);
    assert_eq!(m.editor_state, EditorState::Edit);
    m.common_color();
    assert_eq!(m.color, Color::White);
}

#[test]
fn search_ignores_case_and_password() {
    let e = Entry::new("GitHub".into(), "Alice".into(), "hunter2".into(), Some("Work Laptop".into()));
    assert!(search_match(&e, ""));
    assert!(search_match(&e, "hub"));
    assert!(search_match(&e, "ALI"));
    assert!(search_match(&e, "laptop"));
    assert!(!search_match(&e, "hunter"));
    assert!(!search_match(&e, "bob"));
}

#[test]
fn copy_labels() {
    assert_eq!(CopyField::Service.copy_label(), "Copy service");
    assert_eq!(CopyField::Username.copy_label(), "Copy username");
    assert_eq!(CopyField::Password.copy_label(), "Copy password");
}

fn unlocked_state() -> State {
    let mut st = State::new(AppSettings { auto_lock_secs: 60 });
    st.master_mut().push_str("master");
    let opened = st.open_vault(None).unwrap();
    assert!(opened.is_none());
    st.load(Ok(vec![]), 10);
    st
}

#[test]
fn state_unlocks_a_new_vault() {
    let st = unlocked_state();
    assert!(!st.is_locked());
    assert_eq!(st.status(), "🔓 Unlocked");
    assert_eq!(st.len(), 0);
    assert_eq!(st.key(), &derive_key("master", st.salt()).unwrap());
}

#[test]
fn state_reports_wrong_password() {
    let mut st = State::new(AppSettings::default());
    let file = passman::vault::storage::save_entries(b"[]", &[1u8; 32], &[2u8; 16]).unwrap();
    st.master_mut().push_str("whatever");
    let outcome = st.open_vault(Some(&file));
    assert!(matches!(outcome, Err(GuiError::Core(VaultError::AesGcm(_)))));
    st.load(outcome.map(|_| vec![]), 0);
    assert!(st.is_locked());
    assert_eq!(st.status(), "❎ : Auth failed");
    assert_eq!(st.key(), &[0u8; 32]);
}

#[test]
fn state_add_edit_remove_and_lock() {
    let mut st = unlocked_state();
    st.main.service = "svc".into();
    st.main.username = "user".into();
    st.main.password = "pw".into();
    st.add().unwrap();
    assert_eq!(st.len(), 1);
    st.edit_data(0);
    assert_eq!(st.main.idx, Some(0));
    assert_eq!(st.main.password, "pw");
    st.main.password = "pw2".into();
    assert!(st.update().unwrap());
    assert_eq!(st.list().get(0).password(), "pw2");
    st.report_save(Ok(()));
    assert_eq!(st.status(), "✅ : The storage has been updated");
    st.remove(0);
    st.report_removal(Ok(()));
    assert_eq!(st.status(), "✅ : Data deleted");
    assert_eq!(st.len(), 0);

    st.main.password = "secret".into();
    st.security_mut().current.push_str("x");
    st.lock_session();
    assert!(st.is_locked());
    assert_eq!(st.status(), "🔒 Locked");
    assert!(st.main.password.is_empty());
    assert!(st.security_mut().current.is_empty());
    assert_eq!(st.key(), &[0u8; 32]);
}

#[test]
fn state_add_with_blank_fields_changes_nothing() {
    let mut st = unlocked_state();
    let err = st.add().unwrap_err();
    assert!(matches!(err, GuiError::EmptyData));
    st.report_edit_failure(err);
    assert_eq!(st.main.color, Color::Red);
    assert_eq!(st.text_color(), Color::Red);
    assert_eq!(st.len(), 0);
}

#[test]
fn state_locks_when_idle() {
    let mut st = unlocked_state();
    st.register_activity(false, 69);
    assert!(!st.is_locked());
    st.register_activity(true, 100);
    st.register_activity(false, 159);
    assert!(!st.is_locked());
    st.register_activity(false, 160);
    assert!(st.is_locked());
}

#[test]
fn state_checks_master_password_dialog() {
    let mut st = unlocked_state();
    st.security_mut().current.push_str("master");
    st.security_mut().new.push_str("a");
    st.security_mut().confirm.push_str("b");
    assert!(matches!(st.change_master_password(b"[]"), Err(GuiError::PasswordMismatch)));
    st.security_mut().confirm = "a".into();
    st.security_mut().current = "  ".into();
    assert!(matches!(st.change_master_password(b"[]"), Err(GuiError::EmptyData)));
    st.security_mut().current = "master".into();
    st.security_mut().change_password_open = true;
    let change = match st.change_master_password(b"[]") {
        Ok(c) => c,
        Err(e) => panic!("{:?}", e),
    };
    st.finish_master_password_change(change);
    assert!(!st.security_mut().change_password_open);
    assert!(st.security_mut().new.is_empty());
    assert_eq!(st.status(), "✅ : Master password changed, salt rotated");
    assert_eq!(st.key(), &derive_key("a", st.salt()).unwrap());
}

#[test]
fn state_saves_clamped_settings() {
    let mut st = unlocked_state();
    st.security_mut().auto_lock_secs = 10_000;
    st.security_mut().settings_open = true;
    let saved = st.save_settings();
    assert_eq!(saved.auto_lock_secs, 3600);
    assert_eq!(st.auto_lock_secs(), 3600);
    st.settings_saved(Ok(()));
    assert_eq!(st.status(), "✅ : Auto-lock timeout: 60 min");
    assert!(!st.security_mut().settings_open);
}

#[test]
fn state_generates_long_passwords() {
    let st = unlocked_state();
    assert_eq!(st.generate_password().chars().count(), 32);
}

#[test]
fn state_pending_command() {
    let mut st = unlocked_state();
    st.set_cmd(Cmd::Export);
    st.set_cmd(Cmd::Lock);
    assert!(matches!(st.take_cmd(), Some(Cmd::Export)));
    assert!(st.take_cmd().is_none());
}

#[test]
fn edited_entry_comes_back_unchanged() {
    let mut st = unlocked_state();
    st.editor_mut().service = "svc".into();
    st.editor_mut().username = "user".into();
    st.editor_mut().password = "pw".into();
    st.editor_mut().notes = "note".into();
    st.add().unwrap();
    let before = st.list().get(0).to_string();
    st.open_editor_for(0);
    assert_eq!(st.editor().editor_state, EditorState::Edit);
    assert!(st.update().unwrap());
    let after = st.list().get(0);
    assert_eq!(after.service, "svc");
    assert_eq!(after.username, "user");
    assert_eq!(after.password(), "pw");
    assert_eq!(after.notes.as_deref(), Some("note"));
    assert_ne!(before, after.to_string());
    assert!(st.editor().idx.is_none() && st.editor().password.is_empty());
}

#[test]
fn update_with_blank_editor_ignores_stale_index() {
    let mut st = unlocked_state();
    st.editor_mut().idx = Some(5);
    assert!(matches!(st.update(), Err(GuiError::EmptyData)));
    assert_eq!(st.editor().idx, Some(5));
}

#[test]
fn dialogs_open_as_asked() {
    let mut st = unlocked_state();
    st.security_mut().current.push_str("x");
    st.open_change_password();
    assert!(st.security_mut().change_password_open);
    assert!(st.security_mut().current.is_empty());
    st.open_settings();
    assert!(st.security_mut().settings_open);
    assert_eq!(st.security_mut().auto_lock_secs, 60);
    st.editor_mut().service = "s".into();
    st.open_new_editor();
    assert_eq!(st.editor().editor_state, EditorState::New);
    assert!(st.editor().service.is_empty());
}

#[test]
fn show_error_keeps_dialog_fields() {
    let mut st = unlocked_state();
    st.security_mut().new.push_str("a");
    st.show_error("New passwords do not match".to_string());
    assert_eq!(st.security_mut().new, "a");
    assert_eq!(st.status(), "❎ : New passwords do not match");
    assert_eq!(st.text_color(), Color::Red);
}

#[test]
fn state_opens_existing_vault_with_right_password() {
    let salt = [2u8; 16];
    let key = derive_key("master", &salt).unwrap();
    let file = passman::vault::storage::save_entries(b"[]", &key, &salt).unwrap();
    let mut st = State::new(AppSettings::default());
    st.master_mut().push_str("master");
    let opened = st.open_vault(Some(&file)).unwrap();
    assert_eq!(opened, Some(b"[]".to_vec()));
    assert_eq!(st.key(), &key);
    assert_eq!(st.salt(), &salt);
    st.load(Ok(vec![]), 0);
    assert!(!st.is_locked());
    assert_eq!(st.status(), "🔓 Unlocked");
}

#[test]
fn state_derives_key_even_when_file_does_not_open() {
    let salt = [3u8; 16];
    let file = passman::vault::storage::save_entries(b"[]", &[1u8; 32], &salt).unwrap();
    let mut st = State::new(AppSettings::default());
    st.master_mut().push_str("master");
    assert!(st.open_vault(Some(&file)).is_err());
    assert_eq!(st.key(), &derive_key("master", &salt).unwrap());
    assert_eq!(st.salt(), &salt);
}

#[test]
fn argon2_failures_have_their_texts() {
    assert_eq!(Argon2Failure::PwdTooLong.message(), "password is too long");
    assert_eq!(Argon2Failure::SaltTooShort.message(), "salt is too short");
    assert_eq!(Argon2Failure::SaltTooLong.message(), "salt is too long");
    let e = GuiError::Core(VaultError::Argon2(Argon2Failure::PwdTooLong));
    assert_eq!(e.message(), "password is too long");
}

#[test]
fn state_shows_argon2_failure_text() {
    let mut st = State::new(AppSettings::default());
    st.master_mut().push_str("master");
    let failure = GuiError::Core(VaultError::Argon2(Argon2Failure::SaltTooShort));
    st.load(Err(failure), 0);
    assert!(st.is_locked());
    assert_eq!(st.status(), "❎ : salt is too short");
    assert_eq!(st.key(), &[0u8; 32]);
}

#[test]
fn menu_picks_give_commands() {
    assert!(menu_command(EntryMenuAction::Copy, 3).is_none());
    assert!(matches!(menu_command(EntryMenuAction::Edit, 3), Some(Cmd::EditorUpdate(3))));
    assert!(matches!(menu_command(EntryMenuAction::Remove, 4), Some(Cmd::RemoveEntry(4))));
}

#[test]
fn save_button_follows_editor_state() {
    let mut st = unlocked_state();
    st.open_new_editor();
    st.request_save();
    assert!(matches!(st.take_cmd(), Some(Cmd::NewEntity)));
    assert_eq!(st.editor().editor_state, EditorState::New);

    st.editor_mut().editor_state = EditorState::Edit;
    st.request_save();
    assert!(matches!(st.take_cmd(), Some(Cmd::UpdateEntity)));
    assert_eq!(st.editor().editor_state, EditorState::Close);

    st.request_save();
    assert!(st.take_cmd().is_none());
}

#[test]
fn commands_leave_writes_to_the_caller() {
    let mut st = unlocked_state();
    assert_eq!(st.run_cmd(Cmd::NewEntity), Some(Effect::Add));
    assert_eq!(st.run_cmd(Cmd::UpdateEntity), Some(Effect::Update));
    assert_eq!(st.run_cmd(Cmd::RemoveEntry(2)), Some(Effect::Remove(2)));
    assert_eq!(st.run_cmd(Cmd::Backup), Some(Effect::Backup));
    assert_eq!(st.run_cmd(Cmd::Export), Some(Effect::Export));
    assert!(!st.is_locked());
}

#[test]
fn commands_move_the_state() {
    let mut st = unlocked_state();
    st.editor_mut().service = "svc".into();
    st.editor_mut().username = "user".into();
    st.editor_mut().password = "pw".into();
    st.add().unwrap();

    assert_eq!(st.run_cmd(Cmd::EditorUpdate(0)), None);
    assert_eq!(st.editor().editor_state, EditorState::Edit);
    assert_eq!(st.editor().password, "pw");

    assert_eq!(st.run_cmd(Cmd::EditorNew), None);
    assert_eq!(st.editor().editor_state, EditorState::New);
    assert!(st.editor().service.is_empty());

    assert_eq!(st.run_cmd(Cmd::OpenSettings), None);
    assert!(st.security_mut().settings_open);
    assert_eq!(st.run_cmd(Cmd::OpenChangePassword), None);
    assert!(st.security_mut().change_password_open);

    assert_eq!(st.run_cmd(Cmd::Lock), None);
    assert!(st.is_locked());
    assert_eq!(st.status(), "🔒 Locked");
    assert_eq!(st.len(), 0);
}
