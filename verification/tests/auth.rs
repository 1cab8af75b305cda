use todo_core::error::ServiceError;
use todo_core::jwt::{
    create_token, extract_bearer, from_request, validate_token, AuthOutcome, JwtError,
    TOKEN_LIFETIME_SECONDS,
};
use todo_core::password::{hash_password, verify_password};
use todo_core::text::u64_to_dec;
use todo_core::user::{CreateUserRequest, LoginRequest};
use todo_core::user_service::UserService;

const SECRET: &[u8] = b"test-signing-secret";
const NOW: usize = 1_700_000_000;

#[test]
fn hash_then_verify_accepts_same_password() {
    let credential = hash_password("correct horse battery staple").unwrap();
    assert_eq!(
        verify_password("correct horse battery staple", &credential).unwrap(),
        true
    );
}

#[test]
fn verify_rejects_other_password() {
    let credential = hash_password("first password").unwrap();
    assert_eq!(verify_password("second password", &credential).unwrap(), false);
}

#[test]
fn verify_malformed_credential_is_internal_error() {
    let r = verify_password("anything", "not-a-phc-string");
    assert!(matches!(r, Err(ServiceError::Internal(_))));
}

#[test]
fn hashing_same_password_twice_gives_distinct_credentials() {
    let a = hash_password("same input").unwrap();
    let b = hash_password("same input").unwrap();
    assert_ne!(a, b); // fresh random salt each time
    assert_eq!(verify_password("same input", &a).unwrap(), true);
    assert_eq!(verify_password("same input", &b).unwrap(), true);
}

#[test]
fn issue_then_validate_returns_the_claims() {
    let token = create_token(SECRET, "42", "a@x.com", "alice", NOW).unwrap();
    let claims = validate_token(SECRET, &token, NOW).unwrap();
    assert_eq!(claims.sub, "42");
    assert_eq!(claims.email, "a@x.com");
    assert_eq!(claims.username, "alice");
    assert_eq!(claims.iat, NOW);
    assert_eq!(claims.exp, NOW + TOKEN_LIFETIME_SECONDS);
}

#[test]
fn validate_after_expiry_is_expired_token() {
    let token = create_token(SECRET, "42", "a@x.com", "alice", NOW).unwrap();
    let r = validate_token(SECRET, &token, NOW + TOKEN_LIFETIME_SECONDS);
    assert!(matches!(r, Err(JwtError::ExpiredToken)));
}

#[test]
fn validate_with_other_secret_is_invalid_token() {
    let token = create_token(SECRET, "42", "a@x.com", "alice", NOW).unwrap();
    let r = validate_token(b"another-secret", &token, NOW);
    assert!(matches!(r, Err(JwtError::InvalidToken)));
}

#[test]
fn validate_garbage_is_invalid_token() {
    let r = validate_token(SECRET, "definitely.not.a-token", NOW);
    assert!(matches!(r, Err(JwtError::InvalidToken)));
}

#[test]
fn extract_bearer_strips_the_prefix() {
    assert_eq!(extract_bearer("Bearer abc.def.ghi"), Some("abc.def.ghi"));
    assert_eq!(extract_bearer("Basic abc"), None);
    assert_eq!(extract_bearer("Bearer"), None);
    assert_eq!(extract_bearer(""), None);
}

#[test]
fn from_request_prefers_the_cookie() {
    let token = create_token(SECRET, "7", "b@x.com", "bob", NOW).unwrap();
    let outcome = from_request(SECRET, Some(&token), None, NOW);
    match outcome {
        AuthOutcome::Success(auth) => {
            assert_eq!(auth.user_id, "7");
            assert_eq!(auth.email, "b@x.com");
            assert_eq!(auth.username, "bob");
        }
        _ => panic!("expected success"),
    }
}

#[test]
fn from_request_reads_the_bearer_header() {
    let token = create_token(SECRET, "7", "b@x.com", "bob", NOW).unwrap();
    let header = format!("Bearer {}", token);
    let outcome = from_request(SECRET, None, Some(&header), NOW);
    assert!(matches!(outcome, AuthOutcome::Success(_)));
}

#[test]
fn from_request_rejects_a_non_bearer_header() {
    let header = String::from("Token abc");
    let outcome = from_request(SECRET, None, Some(&header), NOW);
    assert!(matches!(outcome, AuthOutcome::BadRequest(JwtError::MissingToken)));
}

#[test]
fn from_request_forwards_without_any_token() {
    let outcome = from_request(SECRET, None, None, NOW);
    assert!(matches!(outcome, AuthOutcome::Forward));
}

#[test]
fn from_request_rejects_an_invalid_cookie_token() {
    let bogus = String::from("bogus");
    let outcome = from_request(SECRET, Some(&bogus), None, NOW);
    assert!(matches!(outcome, AuthOutcome::Unauthorized(JwtError::InvalidToken)));
}

#[test]
fn decimal_spelling() {
    assert_eq!(u64_to_dec(0), "0");
    assert_eq!(u64_to_dec(7), "7");
    assert_eq!(u64_to_dec(12345), "12345");
    assert_eq!(u64_to_dec(u64::MAX), "18446744073709551615");
}

#[test]
fn register_stores_a_credential_and_refuses_conflicts() {
    let mut users = UserService::new();
    let created = users
        .create(
            CreateUserRequest {
                username: "alice".to_string(),
                email: "a@x.com".to_string(),
                password: "secret".to_string(),
            },
            1_700_000_000,
        )
        .unwrap();
    assert_eq!(created.id, 1);
    assert_eq!(created.username, "alice");
    assert_eq!(created.email, "a@x.com");

    let again = users.create(
        CreateUserRequest {
            username: "alice".to_string(),
            email: "other@x.com".to_string(),
            password: "secret".to_string(),
        },
        1_700_000_001,
    );
    assert!(matches!(again, Err(ServiceError::Conflict(_))));
    assert_eq!(users.users.len(), 1);

    let blank = users.create(
        CreateUserRequest {
            username: "  ".to_string(),
            email: "c@x.com".to_string(),
            password: "secret".to_string(),
        },
        1_700_000_002,
    );
    assert!(matches!(blank, Err(ServiceError::Validation(_))));
}

#[test]
fn login_issues_a_token_for_the_right_password_only() {
    let mut users = UserService::new();
    users
        .create(
            CreateUserRequest {
                username: "alice".to_string(),
                email: "a@x.com".to_string(),
                password: "secret".to_string(),
            },
            1_700_000_000,
        )
        .unwrap();

    let ok = users
        .authenticate(
            SECRET,
            &LoginRequest { email: "a@x.com".to_string(), password: "secret".to_string() },
            NOW,
        )
        .unwrap();
    assert_eq!(ok.user.username, "alice");
    let claims = validate_token(SECRET, &ok.token, NOW).unwrap();
    assert_eq!(claims.sub, "1");
    assert_eq!(claims.email, "a@x.com");
    assert_eq!(claims.username, "alice");

    let wrong = users.authenticate(
        SECRET,
        &LoginRequest { email: "a@x.com".to_string(), password: "nope".to_string() },
        NOW,
    );
    assert!(matches!(wrong, Err(ServiceError::Unauthorized(_))));

    let unknown = users.authenticate(
        SECRET,
        &LoginRequest { email: "nobody@x.com".to_string(), password: "secret".to_string() },
        NOW,
    );
    assert!(matches!(unknown, Err(ServiceError::Unauthorized(_))));
}

#[test]
fn register_then_me_end_to_end() {
    // Register, then read back the identity through the request
    // extractor, with the token carried in the cookie and in the header.
    let mut users = UserService::new();
    let auth = todo_core::handlers::register(
        &mut users,
        SECRET,
        CreateUserRequest {
            username: "alice".to_string(),
            email: "a@x.com".to_string(),
            password: "secret".to_string(),
        },
        NOW as i64,
    )
    .unwrap();
    assert_eq!(auth.user.id, 1);
    assert_eq!(auth.user.username, "alice");
    assert_eq!(auth.user.email, "a@x.com");

    for use_cookie in [true, false] {
        let header = format!("Bearer {}", auth.token);
        let outcome = if use_cookie {
            from_request(SECRET, Some(&auth.token), None, NOW)
        } else {
            from_request(SECRET, None, Some(&header), NOW)
        };
        match outcome {
            AuthOutcome::Success(identity) => {
                assert_eq!(identity.user_id, "1");
                assert_eq!(identity.email, "a@x.com");
                assert_eq!(identity.username, "alice");
            }
            _ => panic!("expected an authenticated identity"),
        }
    }
}
