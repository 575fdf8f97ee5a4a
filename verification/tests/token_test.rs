use openstudio::errors::CoreError;
use openstudio::token::{AuthBearer, TokenError, TokenService};

const SECRET: &str = "test-signing-secret";

#[test]
fn token_round_trip_returns_subject_and_email() {
    let svc = TokenService::new(SECRET.to_string());
    let token = svc.issue_access("user-1", "bob@x.com", 1000);
    let claims = svc.verify(&token, 1500).unwrap();
    assert_eq!(claims.sub, "user-1");
    assert_eq!(claims.email, "bob@x.com");
    assert_eq!(claims.exp, 1000 + 3600);
}

#[test]
fn access_token_expires_exactly_one_hour_after_issue() {
    let svc = TokenService::new(SECRET.to_string());
    let token = svc.issue_access("s", "e@x", 50_000);
    // Accepted at the expiry instant itself...
    let claims = svc.verify(&token, 53_600).unwrap();
    assert_eq!(claims.exp, 53_600);
    // ...and rejected as Expired one second past it, though well-signed.
    assert_eq!(svc.verify(&token, 53_601), Err(TokenError::Expired));
}

#[test]
fn expired_token_is_rejected_as_expired_not_invalid() {
    let svc = TokenService::new(SECRET.to_string());
    let token = svc.issue_access("s", "e@x", 1000);
    assert_eq!(svc.verify(&token, 1_000_000), Err(TokenError::Expired));
}

#[test]
fn malformed_token_is_invalid() {
    let svc = TokenService::new(SECRET.to_string());
    assert_eq!(svc.verify("not-a-token", 0), Err(TokenError::Invalid));
}

#[test]
fn tampered_token_is_invalid() {
    let svc = TokenService::new(SECRET.to_string());
    let token = svc.issue_access("s", "e@x", 1000);
    let mut tampered = token.clone();
    tampered.push('x');
    assert_eq!(svc.verify(&tampered, 1000), Err(TokenError::Invalid));
}

#[test]
fn token_signed_under_another_secret_is_invalid() {
    let svc = TokenService::new(SECRET.to_string());
    let other = TokenService::new("anothersecret".to_string());
    let token = other.issue_access("s", "e@x", 1000);
    assert_eq!(svc.verify(&token, 1000), Err(TokenError::Invalid));
}

#[test]
fn refresh_token_lives_seven_days() {
    let svc = TokenService::new(SECRET.to_string());
    let token = svc.issue_refresh("s", "e@x", 1000);
    let claims = svc.verify(&token, 1000).unwrap();
    assert_eq!(claims.exp, 1000 + 604_800);
}

#[test]
fn refresh_rotates_and_advances_expiry() {
    let svc = TokenService::new(SECRET.to_string());
    let refresh0 = svc.issue_refresh("user-9", "r@x", 1000);
    let access0 = svc.issue_access("user-9", "r@x", 1000);
    let old_access_exp = svc.verify(&access0, 1000).unwrap().exp;

    let (access1, refresh1) = svc.refresh(&refresh0, 2000).unwrap();
    let a = svc.verify(&access1, 2000).unwrap();
    assert_eq!(a.sub, "user-9");
    assert_eq!(a.email, "r@x");
    assert_eq!(a.exp, 2000 + 3600);
    assert!(a.exp > old_access_exp);
    let r = svc.verify(&refresh1, 2000).unwrap();
    assert_eq!(r.exp, 2000 + 604_800);
}

#[test]
fn refresh_of_expired_or_invalid_token_is_unauthorized() {
    let svc = TokenService::new(SECRET.to_string());
    let refresh0 = svc.issue_refresh("s", "e@x", 1000);
    // Long past the seven days.
    assert!(matches!(svc.refresh(&refresh0, 1_000_000_000), Err(CoreError::Unauthorized)));
    assert!(matches!(svc.refresh("garbage", 1000), Err(CoreError::Unauthorized)));
}

#[test]
fn refresh_accepts_any_unexpired_token_of_the_same_shape() {
    // Access and refresh tokens share one claims shape with no kind
    // discriminator, so an unexpired access token is accepted by refresh —
    // the inherited behaviour, kept deliberately.
    let svc = TokenService::new(SECRET.to_string());
    let access = svc.issue_access("s", "e@x", 1000);
    assert!(svc.refresh(&access, 1000).is_ok());
}

#[test]
fn bearer_check_mirrors_verify() {
    let svc = TokenService::new(SECRET.to_string());
    let token = svc.issue_access("s", "e@x", 1000);
    assert!(AuthBearer::check(&svc, &token, 1000).is_some());
    assert!(AuthBearer::check(&svc, &token, 1_000_000).is_none());
    assert!(AuthBearer::check(&svc, "garbage", 1000).is_none());
}
