use cms_core::errors::FieldError;
use cms_core::role::Role;
use cms_core::token::{hash, issue_token, resolve_token, resolve_user};
use cms_core::user::User;
use cms_core::users::authenticate;

fn user(uid: u32, role: Role, password_digest: Option<String>) -> User {
    User {
        uid,
        name: "alice".to_string(),
        mail: "alice@example.com".to_string(),
        url: String::new(),
        screen_name: "Alice".to_string(),
        password: password_digest,
        created: 0,
        role,
    }
}

#[test]
fn hash_is_sha256_hex() {
    assert_eq!(
        hash("abc"),
        "ba7816bf8f01cfea414140de5dae2223b00361a396177a9cb410ff61f20015ad"
    );
    assert_eq!(
        hash(""),
        "e3b0c44298fc1c149afbf4c8996fb92427ae41e4649b934ca495991b7852b855"
    );
}

#[test]
fn issued_token_resolves_back_to_the_user_id() {
    let key = "unit-test-signing-key".to_string();
    let (token, exp) = issue_token(42, 1_000, 3_600, &key).unwrap();
    assert_eq!(exp, 4_600);
    assert_ne!(token, "42");
    let uid = resolve_token(Some(&token), &key, 2_000).unwrap();
    assert_eq!(uid, 42);
}

#[test]
fn expired_token_is_unauthenticated() {
    let key = "unit-test-signing-key".to_string();
    let (token, _) = issue_token(42, 1_000, 3_600, &key).unwrap();
    assert_eq!(
        resolve_token(Some(&token), &key, 4_600).unwrap_err(),
        FieldError::Unauthenticated
    );
}

#[test]
fn token_signed_with_another_key_is_unauthenticated() {
    let key = "unit-test-signing-key".to_string();
    let other = "another-key".to_string();
    let (token, _) = issue_token(42, 1_000, 3_600, &key).unwrap();
    assert_eq!(
        resolve_token(Some(&token), &other, 2_000).unwrap_err(),
        FieldError::Unauthenticated
    );
}

#[test]
fn missing_or_garbage_token_is_unauthenticated() {
    let key = "unit-test-signing-key".to_string();
    assert_eq!(resolve_token(None, &key, 0).unwrap_err(), FieldError::Unauthenticated);
    let garbage = "not.a.token".to_string();
    assert_eq!(
        resolve_token(Some(&garbage), &key, 0).unwrap_err(),
        FieldError::Unauthenticated
    );
}

#[test]
fn missing_subject_is_not_found_by_uid() {
    assert_eq!(resolve_user(None).unwrap_err(), FieldError::NotFound("uid".to_string()));
    let u = user(9, Role::Subscriber, None);
    assert_eq!(resolve_user(Some(u)).unwrap().uid, 9);
}

#[test]
fn login_succeeds_only_on_the_stored_digest() {
    let pw = "hunter2".to_string();
    let stored = user(7, Role::Contributor, Some(hash(&pw)));
    let ok = authenticate(Some(stored), &pw).unwrap();
    assert_eq!(ok.uid, 7);

    let stored = user(7, Role::Contributor, Some(hash(&pw)));
    let wrong = "hunter3".to_string();
    assert_eq!(
        authenticate(Some(stored), &wrong).unwrap_err(),
        FieldError::Unauthenticated
    );

    let no_digest = user(7, Role::Contributor, None);
    assert_eq!(
        authenticate(Some(no_digest), &pw).unwrap_err(),
        FieldError::Unauthenticated
    );
    assert_eq!(authenticate(None, &pw).unwrap_err(), FieldError::Unauthenticated);
}
