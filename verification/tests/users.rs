use system_manager_server::users::{User, UserError, DEFAULT_STORAGE};
use system_manager_server::wire::{closing_frames, error_text, percentage_answer, percentage_reply, Reply};
use system_manager_server::bridge::Frame;
use system_manager_server::errors::{LaunchError, ProtocolViolation, SessionError};

const SALT: &str = "c29tZXNhbHRzb21lc2FsdA";

#[test]
fn new_account_starts_without_rights() {
    let user = User::with_salt("  alice ", " secret\n", SALT);
    assert_eq!(user.name(), "alice");
    assert!(!user.admin());
    assert_eq!(user.storage(), 1073741824);
    assert_eq!(user.storage(), DEFAULT_STORAGE);
    assert!(user.password_hash().starts_with("$argon2id$"));
    assert_ne!(user.password_hash(), "secret");
}

#[test]
fn password_is_hashed_without_the_white_space_around_it() {
    let user = User::with_salt("alice", " secret\n", SALT);
    assert!(user.accepts("secret"));
    assert!(!user.accepts(" secret\n"));
    assert!(!user.accepts("Secret"));
    assert!(!user.accepts(""));
}

#[test]
fn same_salt_gives_the_same_hash() {
    let one = User::with_salt("a", "secret", SALT);
    let two = User::with_salt("b", "secret", SALT);
    let other = User::with_salt("a", "secret", "b3RoZXJzYWx0b3RoZXJzYWx0");
    assert_eq!(one.password_hash(), two.password_hash());
    assert_ne!(one.password_hash(), other.password_hash());
}

#[test]
fn salt_that_is_none_stores_no_hash() {
    let user = User::with_salt("alice", "secret", "not a salt!");
    assert_eq!(user.password_hash(), "");
    assert!(!user.accepts("secret"));
    assert!(!user.accepts(""));
}

#[test]
fn new_account_gets_a_salt_of_its_own() {
    let one = User::new("alice", "secret");
    let two = User::new("alice", "secret");
    assert!(one.accepts("secret"));
    assert!(two.accepts("secret"));
    assert_ne!(one.password_hash(), two.password_hash());
    assert_eq!(one.name(), "alice");
}

#[test]
fn login_is_judged_by_the_password() {
    let hash = User::with_salt("alice", "secret", SALT).password_hash().to_string();
    let stored = || User::from_parts("alice".to_string(), hash.clone(), true, 5);
    match User::login(Some(stored()), "secret") {
        Ok(user) => {
            assert_eq!(user.name(), "alice");
            assert!(user.admin());
            assert_eq!(user.storage(), 5);
        }
        Err(error) => panic!("login failed: {:?}", error),
    }
    assert!(matches!(User::login(Some(stored()), "wrong"), Err(UserError::PasswordError)));
    assert!(matches!(User::login(None, "secret"), Err(UserError::UserNotFound)));
}

#[test]
fn rights_and_storage_change_in_place() {
    let mut user = User::from_parts("bob".to_string(), "x".to_string(), false, 10);
    *user.admin_mut() = true;
    *user.storage_mut() = 2048;
    assert!(user.admin());
    assert_eq!(user.storage(), 2048);
    assert_eq!(user.name(), "bob");
    assert_eq!(user.password_hash(), "x");
}

#[test]
fn changing_the_password_keeps_the_rest() {
    let mut user = User::from_parts("bob".to_string(), "x".to_string(), true, 10);
    let returned = user.change_password("new one".to_string());
    assert_eq!(returned, "new one");
    assert!(user.accepts("new one"));
    assert!(!user.accepts("x"));
    assert!(user.admin());
    assert_eq!(user.storage(), 10);
    user.set_password("third", SALT);
    assert!(user.accepts("third"));
    assert_eq!(user.password_hash(), User::with_salt("z", "third", SALT).password_hash());
}

#[test]
fn password_of_a_form_counts_only_if_something_is_left() {
    assert_eq!(User::password_wanted("  pw "), Some("pw".to_string()));
    assert_eq!(User::password_wanted("   "), None);
    assert_eq!(User::password_wanted(""), None);
}

#[test]
fn user_errors_have_status_and_text() {
    let io = UserError::from(std::io::Error::new(std::io::ErrorKind::NotFound, "gone"));
    assert!(matches!(io, UserError::IoError(_)));
    assert_eq!(io.status(), 500);
    assert_eq!(io.body(), "IO Error");
    assert_eq!(io.message(), "IO Error: gone");
    assert_eq!(UserError::PasswordError.status(), 400);
    assert_eq!(UserError::PasswordError.body(), "Password Error");
    assert_eq!(UserError::PasswordError.message(), "Password Error");
    assert_eq!(UserError::UserNotFound.status(), 404);
    assert_eq!(UserError::UserNotFound.message(), "User Not Found");
    let other = UserError::Other("broken".to_string());
    assert_eq!(other.status(), 500);
    assert_eq!(other.body(), "broken");
    assert_eq!(other.message(), "broken");
}

#[test]
fn percentages_are_sent_as_numbers() {
    assert_eq!(percentage_reply(Some(0), Reply::PowerFailed), "0");
    assert_eq!(percentage_reply(Some(7), Reply::PowerFailed), "7");
    assert_eq!(percentage_reply(Some(85), Reply::PowerFailed), "85");
    assert_eq!(percentage_reply(Some(100), Reply::StorageFailed), "100");
    assert_eq!(percentage_reply(Some(255), Reply::StorageFailed), "255");
    assert_eq!(percentage_reply(None, Reply::PowerFailed), "ERROR: Failed to check power");
    assert_eq!(percentage_reply(None, Reply::StorageFailed), "ERROR: Failed to check storage");
}

#[test]
fn failed_writing_of_a_percentage_is_answered_with_the_failure() {
    let broken = serde_json::from_str::<u8>("x").map(|_| String::new());
    assert!(broken.is_err());
    assert_eq!(percentage_answer(broken, Reply::PowerFailed), "ERROR: Failed to check power");
    assert_eq!(percentage_answer(Ok("42".to_string()), Reply::PowerFailed), "42");
}

#[test]
fn replies_have_their_texts() {
    assert_eq!(Reply::Ready.text(), "READY");
    assert_eq!(Reply::InvalidUser.text(), "ERROR: invalid user");
    assert_eq!(Reply::InvalidRequest.text(), "ERROR: invalid request");
    assert_eq!(
        Reply::NotPermitted.text(),
        "ERROR: You don't have permisson to change settings please contact your system admin"
    );
    assert_eq!(Reply::Saved.text(), "SAVED");
    assert_eq!(Reply::StatusFailed("x".to_string()).text(), "ERROR: invalid status x");
    assert_eq!(
        Reply::SettingsLoadFailed("y".to_string()).text(),
        "ERROR: failed to load settings y"
    );
    assert_eq!(
        Reply::SettingsRejected("z".to_string()).text(),
        "ERROR: failed to set new settings due to error z"
    );
    assert_eq!(
        Reply::SettingsSaveFailed("w".to_string()).text(),
        "ERROR: failed to save settings due to error w"
    );
    assert_eq!(Reply::Done.text(), "done");
    assert!(matches!(Reply::to_authentication(true), Reply::Ready));
    assert!(matches!(Reply::to_authentication(false), Reply::InvalidUser));
}

#[test]
fn session_ends_with_one_error_frame_at_most() {
    let frames = closing_frames(None);
    assert_eq!(frames.len(), 1);
    assert!(matches!(frames[0], Frame::Close));
    let error = SessionError::Protocol(ProtocolViolation::UnknownCapability);
    let frames = closing_frames(Some(error));
    assert_eq!(frames.len(), 2);
    assert!(matches!(&frames[0], Frame::Text(text) if text == "ERROR: invalid request"));
    assert!(matches!(frames[1], Frame::Close));
    assert_eq!(
        error_text(SessionError::Launch(LaunchError::IdentityUnresolved)),
        "ERROR: invalid user"
    );
    assert_eq!(error_text(SessionError::Launch(LaunchError::ForkFailed(11))), "ERROR: Failed to fork");
}

#[test]
fn pages_of_the_administrators_are_refused_to_others() {
    let admin = User::from_parts("a".to_string(), "h".to_string(), true, 1);
    let other = User::from_parts("b".to_string(), "h".to_string(), false, 1);
    assert_eq!(admin.refusal(), None);
    assert_eq!(other.refusal(), Some((403, "Forbidden only system admins can access this page")));
}
