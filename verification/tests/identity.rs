use identity_core::auth::{SessionToken, User, UserManager, SESSION_LIFETIME_NANOS};
use identity_core::clock::to_nanos;
use identity_core::hasher::hash_password;

fn is_uuid_text(text: &str) -> bool {
    text.len() == 36
        && text.chars().enumerate().all(|(i, c)| {
            if i == 8 || i == 13 || i == 18 || i == 23 {
                c == '-'
            } else {
                c.is_ascii_digit() || ('a'..='f').contains(&c)
            }
        })
}

fn user(email: &str, password: &str, salt: &str) -> User {
    User {
        email: email.to_string(),
        newsletter: false,
        hashed: hash_password(password, salt),
        salt: salt.to_string(),
        uuids: vec!["doc-1".to_string()],
    }
}

#[test]
fn new_manager_is_empty() {
    let manager = UserManager::new();
    assert!(!manager.user_exists("a@x.com"));
    assert!(manager.get_user("a@x.com").is_none());
    assert!(manager.session_tokens().is_empty());
    assert_eq!(manager.get_email_from_code("code"), None);
    assert_eq!(manager.get_email_from_token("token"), None);
}

#[test]
fn insert_get_and_remove_user() {
    let mut manager = UserManager::new();
    manager.insert_user(user("a@x.com", "pw1", "s1"));
    manager.insert_user(user("b@x.com", "pw2", "s2"));
    assert!(manager.user_exists("a@x.com"));
    assert!(manager.user_exists("b@x.com"));
    assert!(!manager.user_exists("c@x.com"));
    assert_eq!(manager.get_user("a@x.com"), Some(&user("a@x.com", "pw1", "s1")));
    manager.remove_user("a@x.com");
    assert!(!manager.user_exists("a@x.com"));
    assert_eq!(manager.get_user("b@x.com").unwrap().email, "b@x.com");
    manager.remove_user("a@x.com");
    assert!(manager.user_exists("b@x.com"));
}

#[test]
fn insert_user_replaces_the_user_of_the_same_email() {
    let mut manager = UserManager::new();
    manager.insert_user(user("a@x.com", "pw1", "s1"));
    manager.insert_user(user("a@x.com", "pw2", "s2"));
    assert_eq!(manager.get_user("a@x.com"), Some(&user("a@x.com", "pw2", "s2")));
}

#[test]
fn delete_user_removes_from_memory() {
    let mut manager = UserManager::new();
    manager.insert_user(user("a@x.com", "pw1", "s1"));
    manager.delete_user("a@x.com");
    assert!(!manager.user_exists("a@x.com"));
    manager.delete_user("a@x.com");
    assert!(!manager.user_exists("a@x.com"));
}

#[test]
fn pre_register_then_register_yields_the_user() {
    let mut manager = UserManager::new();
    let token = manager.pre_register("a@x.com".to_string(), "pw1".to_string(), true);
    assert!(is_uuid_text(&token));
    assert!(!manager.user_exists("a@x.com"));
    let registered = manager.register(token.clone()).unwrap();
    assert_eq!(registered.email, "a@x.com");
    assert!(registered.newsletter);
    assert!(registered.uuids.is_empty());
    assert!(is_uuid_text(&registered.salt));
    assert_eq!(registered.hashed, hash_password("pw1", &registered.salt));
    assert_eq!(manager.get_user("a@x.com"), Some(&registered));
}

#[test]
fn register_uses_the_token_once() {
    let mut manager = UserManager::new();
    let token = manager.pre_register("a@x.com".to_string(), "pw1".to_string(), false);
    assert!(manager.register(token.clone()).is_ok());
    assert_eq!(manager.register(token), Err("User not found"));
}

#[test]
fn register_with_unknown_token_fails_and_changes_nothing() {
    let mut manager = UserManager::new();
    let token = manager.pre_register("a@x.com".to_string(), "pw1".to_string(), false);
    assert_eq!(manager.register("no such token".to_string()), Err("User not found"));
    assert!(!manager.user_exists("a@x.com"));
    assert!(manager.register(token).is_ok());
}

#[test]
fn pre_register_with_files_exactly_what_it_is_given() {
    let mut manager = UserManager::new();
    let handed = manager.pre_register_with(
        "a@x.com".to_string(),
        true,
        "the hash".to_string(),
        "the salt".to_string(),
        "T".to_string(),
    );
    assert_eq!(handed, "T");
    let registered = manager.register("T".to_string()).unwrap();
    assert_eq!(
        registered,
        User {
            email: "a@x.com".to_string(),
            newsletter: true,
            hashed: "the hash".to_string(),
            salt: "the salt".to_string(),
            uuids: Vec::new(),
        }
    );
}

#[test]
fn two_pre_registrations_get_different_tokens_and_salts() {
    let mut manager = UserManager::new();
    let first = manager.pre_register("a@x.com".to_string(), "pw".to_string(), false);
    let second = manager.pre_register("b@x.com".to_string(), "pw".to_string(), false);
    assert_ne!(first, second);
    let a = manager.register(first).unwrap();
    let b = manager.register(second).unwrap();
    assert_ne!(a.salt, b.salt);
    assert_ne!(a.hashed, b.hashed);
}

#[test]
fn login_succeeds_iff_the_password_hashes_to_the_stored_hash() {
    let mut manager = UserManager::new();
    let account = user("a@x.com", "pw1", "s1");
    assert!(manager.login("pw1".to_string(), account.clone()).is_ok());
    assert_eq!(manager.login("pw2".to_string(), account.clone()), Err("Password is incorrect"));
    assert_eq!(manager.login("".to_string(), account.clone()), Err("Password is incorrect"));
    assert_eq!(manager.login("pw1 ".to_string(), account), Err("Password is incorrect"));
}

#[test]
fn failed_login_opens_no_session() {
    let mut manager = UserManager::new();
    assert!(manager.login("wrong".to_string(), user("a@x.com", "pw1", "s1")).is_err());
    assert!(manager.session_tokens().is_empty());
}

#[test]
fn session_is_valid_after_login_and_invalid_after_logout() {
    let mut manager = UserManager::new();
    let session = manager.login("pw1".to_string(), user("a@x.com", "pw1", "s1")).unwrap();
    assert!(is_uuid_text(&session));
    assert!(manager.session_token_valid(session.clone()));
    assert!(manager.session_token_valid(session.clone()));
    assert_eq!(manager.get_email_from_token(&session), Some("a@x.com".to_string()));
    manager.logout(session.clone());
    assert!(!manager.session_token_valid(session.clone()));
    assert!(!manager.session_token_valid(session.clone()));
    assert_eq!(manager.get_email_from_token(&session), None);
}

#[test]
fn logout_of_unknown_token_is_a_no_op() {
    let mut manager = UserManager::new();
    let session = manager.login("pw1".to_string(), user("a@x.com", "pw1", "s1")).unwrap();
    manager.logout("unknown".to_string());
    assert!(manager.session_token_valid(session.clone()));
    assert_eq!(manager.session_tokens(), vec![session]);
}

#[test]
fn several_sessions_per_user_are_independent() {
    let mut manager = UserManager::new();
    let account = user("a@x.com", "pw1", "s1");
    let first = manager.login("pw1".to_string(), account.clone()).unwrap();
    let second = manager.login("pw1".to_string(), account).unwrap();
    assert_ne!(first, second);
    manager.logout(first.clone());
    assert!(!manager.session_token_valid(first));
    assert!(manager.session_token_valid(second));
}

#[test]
fn session_lasts_exactly_24_hours() {
    assert_eq!(SESSION_LIFETIME_NANOS, 24 * 60 * 60 * 1_000_000_000);
    let mut manager = UserManager::new();
    let account = user("a@x.com", "pw1", "s1");
    let now = to_nanos(1_700_000_000, 5);
    let token = manager
        .login_with(hash_password("pw1", "s1"), account, now, "S".to_string())
        .unwrap();
    assert_eq!(token, "S");
    assert!(manager.session_token_valid_at("S".to_string(), now));
    assert!(manager.session_token_valid_at("S".to_string(), now + SESSION_LIFETIME_NANOS - 1));
    assert!(!manager.session_token_valid_at("S".to_string(), now + SESSION_LIFETIME_NANOS));
    assert!(!manager.session_token_valid_at("S".to_string(), now + SESSION_LIFETIME_NANOS + 1));
    assert!(manager.session_token_valid_at("S".to_string(), now - 1));
    assert!(!manager.session_token_valid_at("other".to_string(), now));
}

#[test]
fn login_with_rejects_another_hash() {
    let mut manager = UserManager::new();
    let account = user("a@x.com", "pw1", "s1");
    let r = manager.login_with(hash_password("pw2", "s1"), account, 0, "S".to_string());
    assert_eq!(r, Err("Password is incorrect"));
    assert!(!manager.session_token_valid_at("S".to_string(), 0));
}

#[test]
fn clock_readings_are_put_together_in_nanoseconds() {
    assert_eq!(to_nanos(0, 0), 0);
    assert_eq!(to_nanos(1, 1), 1_000_000_001);
    assert_eq!(to_nanos(-1, 999_999_999), -1);
    assert_eq!(to_nanos(i64::MAX, u32::MAX), 9_223_372_036_854_775_807_000_000_000 + 4_294_967_295);
}

#[test]
fn session_token_is_issued_with_its_times() {
    let session = SessionToken::issue("S".to_string(), "a@x.com".to_string(), String::new(), 10);
    assert_eq!(session.token(), "S");
    assert_eq!(session.user_id(), "a@x.com");
    assert!(session.is_valid_at(10));
    assert!(session.is_valid_at(10 + SESSION_LIFETIME_NANOS - 1));
    assert!(!session.is_valid_at(10 + SESSION_LIFETIME_NANOS));
}

#[test]
fn new_session_token_is_valid_now() {
    let mut session = SessionToken::new("a@x.com".to_string(), "device".to_string());
    assert!(is_uuid_text(session.token()));
    assert_eq!(session.user_id(), "a@x.com");
    assert!(session.is_valid());
    session.update_last_used();
    session.set_last_used(3);
    assert!(session.is_valid());
}

#[test]
fn reset_code_maps_to_the_email_until_removed() {
    let mut manager = UserManager::new();
    let code = manager.insert_reset_email_code("a@x.com".to_string());
    assert!(is_uuid_text(&code));
    assert_eq!(manager.get_email_from_code(&code), Some("a@x.com".to_string()));
    assert_eq!(manager.get_email_from_code(&code), Some("a@x.com".to_string()));
    assert_eq!(manager.get_email_from_code("other"), None);
    manager.remove_reset_email_code(&code);
    assert_eq!(manager.get_email_from_code(&code), None);
}

#[test]
fn reset_code_with_given_code() {
    let mut manager = UserManager::new();
    let handed = manager.insert_reset_email_code_with("a@x.com".to_string(), "C".to_string());
    assert_eq!(handed, "C");
    assert_eq!(manager.get_email_from_code("C"), Some("a@x.com".to_string()));
}

#[test]
fn change_password_replaces_the_user_and_empties_the_document_ids() {
    let mut manager = UserManager::new();
    let before = user("a@x.com", "pw1", "s1");
    manager.insert_user(before.clone());
    let after = manager.change_password("a@x.com", "pw2", true);
    assert_eq!(after.email, "a@x.com");
    assert!(after.newsletter);
    assert!(after.uuids.is_empty());
    assert!(is_uuid_text(&after.salt));
    assert_eq!(after.hashed, hash_password("pw2", &after.salt));
    assert_ne!(after.hashed, before.hashed);
    assert_eq!(manager.get_user("a@x.com"), Some(&after));
}

#[test]
fn change_password_with_given_hash_and_salt() {
    let mut manager = UserManager::new();
    let after = manager.change_password_with("a@x.com", false, "H".to_string(), "S".to_string());
    assert_eq!(
        after,
        User {
            email: "a@x.com".to_string(),
            newsletter: false,
            hashed: "H".to_string(),
            salt: "S".to_string(),
            uuids: Vec::new(),
        }
    );
    assert_eq!(manager.get_user("a@x.com"), Some(&after));
}

#[test]
fn scenario_register_login_logout() {
    let mut manager = UserManager::new();
    let token = manager.pre_register("a@x.com".to_string(), "pw1".to_string(), false);
    let registered = manager.register(token).unwrap();
    assert!(registered.uuids.is_empty());
    let session = manager.login("pw1".to_string(), registered).unwrap();
    assert!(manager.session_token_valid(session.clone()));
    manager.logout(session.clone());
    assert!(!manager.session_token_valid(session));
}

#[test]
fn scenario_reset_password() {
    let mut manager = UserManager::new();
    let token = manager.pre_register("a@x.com".to_string(), "pw1".to_string(), false);
    let initial = manager.register(token).unwrap();
    let code = manager.insert_reset_email_code("a@x.com".to_string());
    assert_eq!(manager.get_email_from_code(&code), Some("a@x.com".to_string()));
    let changed = manager.change_password("a@x.com", "pw2", false);
    assert_ne!(changed.hashed, initial.hashed);
    assert!(manager.login("pw1".to_string(), changed.clone()).is_err());
    assert!(manager.login("pw2".to_string(), changed).is_ok());
}

#[test]
fn session_tokens_lists_every_session_once() {
    let mut manager = UserManager::new();
    let account = user("a@x.com", "pw1", "s1");
    let mut opened = vec![
        manager.login("pw1".to_string(), account.clone()).unwrap(),
        manager.login("pw1".to_string(), account.clone()).unwrap(),
        manager.login("pw1".to_string(), account).unwrap(),
    ];
    let mut listed = manager.session_tokens();
    opened.sort();
    listed.sort();
    assert_eq!(listed, opened);
}

#[test]
fn user_clone_is_equal() {
    let initial = user("a@x.com", "pw1", "s1");
    assert_eq!(initial.clone(), initial);
}

#[test]
fn clock_reads_a_time_after_2020() {
    let first = identity_core::clock::now();
    assert!(first > to_nanos(1_577_836_800, 0));
    assert!(first < to_nanos(32_503_680_000, 0));
}

#[test]
fn salts_are_fresh_uuids() {
    let first = identity_core::hasher::new_salt();
    let second = identity_core::hasher::new_salt();
    assert!(is_uuid_text(&first));
    assert!(is_uuid_text(&second));
    assert_ne!(first, second);
    assert_eq!(first.chars().nth(14), Some('4'));
}

#[test]
fn logout_user_removes_the_sessions_of_that_user_only() {
    let mut manager = UserManager::new();
    let a1 = manager.login("pw1".to_string(), user("a@x.com", "pw1", "s1")).unwrap();
    let a2 = manager.login("pw1".to_string(), user("a@x.com", "pw1", "s1")).unwrap();
    let b1 = manager.login("pw1".to_string(), user("b@x.com", "pw1", "s1")).unwrap();
    manager.insert_user(user("a@x.com", "pw1", "s1"));
    let code = manager.insert_reset_email_code("a@x.com".to_string());
    manager.logout_user("a@x.com");
    assert!(!manager.session_token_valid(a1));
    assert!(!manager.session_token_valid(a2));
    assert!(manager.session_token_valid(b1.clone()));
    assert_eq!(manager.session_tokens(), vec![b1.clone()]);
    assert!(manager.user_exists("a@x.com"));
    assert_eq!(manager.get_email_from_code(&code), Some("a@x.com".to_string()));
    manager.logout_user("a@x.com");
    manager.logout_user("nobody@x.com");
    assert_eq!(manager.session_tokens(), vec![b1]);
}

#[test]
fn logout_user_on_an_empty_store() {
    let mut manager = UserManager::new();
    manager.logout_user("a@x.com");
    assert!(manager.session_tokens().is_empty());
}
