use openstudio::errors::CoreError;
use openstudio::models::{CreateUserInput, LoginInput, RegisterInput};
use openstudio::repos::InMemoryUserRepo;
use openstudio::token::TokenService;
use openstudio::usecases::{create_user, login_with_tokens, refresh_tokens, register_with_tokens};
use uuid::Uuid;

fn register_input(username: &str, email: &str, password: &str) -> RegisterInput {
    RegisterInput {
        username: username.to_string(),
        email: email.to_string(),
        password: password.to_string(),
        first_name: None,
        last_name: None,
    }
}

fn login_input(username: &str, email: &str, password: &str) -> LoginInput {
    LoginInput {
        username: username.to_string(),
        email: email.to_string(),
        password: password.to_string(),
    }
}

#[test]
fn register_login_conflict_and_wrong_password() {
    let repo = InMemoryUserRepo::new();
    let svc = TokenService::new("test-signing-secret".to_string());

    let bob = repo.register(register_input("bob", "bob@x.com", "pw1")).unwrap();
    assert_eq!(bob.username, "bob");
    assert_eq!(bob.email, "bob@x.com");

    // Same username again: Conflict, whatever the email.
    let again = repo.register(register_input("bob", "other@x.com", "pw2"));
    assert!(matches!(again, Err(CoreError::Conflict)));
    // Same email again: Conflict too.
    let again = repo.register(register_input("robert", "bob@x.com", "pw2"));
    assert!(matches!(again, Err(CoreError::Conflict)));

    // Correct credentials: a user and an access/refresh pair.
    let (user, access, refresh) =
        login_with_tokens(&repo, &svc, &login_input("bob", "bob@x.com", "pw1")).unwrap();
    assert_eq!(user.id, bob.id);
    assert!(!access.is_empty());
    assert!(!refresh.is_empty());

    // Wrong password: the one opaque answer.
    let denied = login_with_tokens(&repo, &svc, &login_input("bob", "bob@x.com", "wrong"));
    assert!(matches!(denied, Err(CoreError::Unauthorized)));
    // Unknown user: the same opaque answer.
    let denied = login_with_tokens(&repo, &svc, &login_input("eve", "eve@x.com", "pw1"));
    assert!(matches!(denied, Err(CoreError::Unauthorized)));
}

#[test]
fn login_matches_username_or_email() {
    let repo = InMemoryUserRepo::new();
    let svc = TokenService::new("test-signing-secret".to_string());
    repo.register(register_input("alice", "alice@x.com", "pw")).unwrap();

    // Either identifier alone suffices.
    assert!(login_with_tokens(&repo, &svc, &login_input("alice", "nobody@x.com", "pw")).is_ok());
    assert!(login_with_tokens(&repo, &svc, &login_input("nobody", "alice@x.com", "pw")).is_ok());
    assert!(
        login_with_tokens(&repo, &svc, &login_input("nobody", "nobody@x.com", "pw"))
            .is_err()
    );
}

#[test]
fn access_token_subject_is_the_user_id_as_uuid_string() {
    let repo = InMemoryUserRepo::new();
    let svc = TokenService::new("test-signing-secret".to_string());
    let before = chrono::Utc::now().timestamp() as u64;
    let (user, access, _refresh) =
        register_with_tokens(&repo, &svc, register_input("carol", "c@x.com", "pw")).unwrap();
    let after = chrono::Utc::now().timestamp() as u64;
    let claims = svc.verify(&access, before).unwrap();
    assert_eq!(claims.sub, Uuid::from_u128(user.id).to_string());
    assert_eq!(claims.email, "c@x.com");
    assert!(claims.exp >= before + 3600 && claims.exp <= after + 3600);
}

#[test]
fn refresh_flow_rotates_the_pair() {
    let repo = InMemoryUserRepo::new();
    let svc = TokenService::new("test-signing-secret".to_string());
    let (user, _access, refresh) =
        register_with_tokens(&repo, &svc, register_input("dave", "d@x.com", "pw")).unwrap();
    let before = chrono::Utc::now().timestamp() as u64;
    let (access2, refresh2) = refresh_tokens(&svc, &refresh).unwrap();
    let after = chrono::Utc::now().timestamp() as u64;
    let claims = svc.verify(&access2, before).unwrap();
    assert_eq!(claims.sub, Uuid::from_u128(user.id).to_string());
    assert_eq!(claims.email, "d@x.com");
    let claims = svc.verify(&refresh2, before).unwrap();
    assert!(claims.exp >= before + 604_800 && claims.exp <= after + 604_800);
}

#[test]
fn password_is_stored_hashed_never_plain() {
    let repo = InMemoryUserRepo::new();
    let user = repo.register(register_input("erin", "e@x.com", "hunter2")).unwrap();
    assert_ne!(user.password, "hunter2");
    assert!(user.password.starts_with("$argon2"));
    // The stored record carries the hash too, and it verifies only the
    // registered password.
    let stored = repo.get_user(user.id).unwrap();
    assert_eq!(stored.password, user.password);
}

#[test]
fn created_user_logs_in_after_save() {
    let repo = InMemoryUserRepo::new();
    let svc = TokenService::new("test-signing-secret".to_string());
    let user = create_user(CreateUserInput {
        username: "frank".to_string(),
        email: "f@x.com".to_string(),
        password: "pw".to_string(),
    })
    .unwrap();
    repo.save_user(user);
    assert!(login_with_tokens(&repo, &svc, &login_input("frank", "f@x.com", "pw")).is_ok());
    assert!(login_with_tokens(&repo, &svc, &login_input("frank", "f@x.com", "nope")).is_err());
}

#[test]
fn registration_stamps_identity_and_timestamps() {
    let repo = InMemoryUserRepo::new();
    let user = repo.register(register_input("gail", "g@x.com", "pw")).unwrap();
    assert!(user.id != 0);
    assert_eq!(user.created_at, user.updated_at);
    let now = chrono::Utc::now().timestamp();
    assert!((now - user.created_at).abs() < 5);
}
