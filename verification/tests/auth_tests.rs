use video_stream_be::auth::{
    strip_bearer, AuthHeader, AuthMiddleware, AuthRejection, Claims, GoogleAuthService,
    TOKEN_LIFETIME_SECONDS,
};
use video_stream_be::ids::RecordId;

#[test]
fn token_expires_after_seven_days() {
    assert_eq!(TOKEN_LIFETIME_SECONDS, 7 * 24 * 60 * 60);
    let claims = Claims::issue(&RecordId::new(0x42), 1_700_000_000);
    assert_eq!(claims.sub, "00000000-0000-0000-0000-000000000042");
    assert_eq!(claims.iat, 1_700_000_000);
    assert_eq!(claims.exp, 1_700_604_800);
    assert_eq!(claims.user_id(), Some(RecordId::new(0x42)));
}

#[test]
fn token_is_not_issued_outside_representable_time() {
    assert!(Claims::issue_checked(&RecordId::new(1), -1).is_none());
    assert!(Claims::issue_checked(&RecordId::new(1), i64::MAX).is_none());
    assert!(Claims::issue_checked(&RecordId::new(1), i64::MAX - TOKEN_LIFETIME_SECONDS + 1).is_none());
    let claims = Claims::issue_checked(&RecordId::new(1), 0).unwrap();
    assert_eq!((claims.iat, claims.exp), (0, 604800));
}

#[test]
fn bearer_token_is_what_follows_the_scheme() {
    let header = AuthHeader::Text("Bearer abc.def.ghi".to_string());
    assert_eq!(AuthMiddleware::bearer_token(&header), Ok("abc.def.ghi".to_string()));
    assert_eq!(AuthMiddleware::bearer_token(&AuthHeader::Text("Bearer ".to_string())), Ok(String::new()));
    assert_eq!(strip_bearer("Bearer  x"), Some(" x".to_string()));
    assert_eq!(strip_bearer("Bearer \u{e9}t\u{e9}"), Some("\u{e9}t\u{e9}".to_string()));
}

#[test]
fn other_headers_are_rejected() {
    assert_eq!(AuthMiddleware::bearer_token(&AuthHeader::Missing), Err(AuthRejection::HeaderMissing));
    assert_eq!(AuthMiddleware::bearer_token(&AuthHeader::NotText), Err(AuthRejection::HeaderInvalid));
    for text in ["", "Bearer", "bearer abc", "Basic abc", " Bearer abc", "Bearerabc"] {
        assert_eq!(
            AuthMiddleware::bearer_token(&AuthHeader::Text(text.to_string())),
            Err(AuthRejection::FormatInvalid),
            "{:?}",
            text
        );
    }
    assert_eq!(AuthRejection::HeaderMissing.message(), "Authorization header missing");
    assert_eq!(AuthRejection::HeaderInvalid.message(), "Invalid authorization header");
    assert_eq!(AuthRejection::FormatInvalid.message(), "Invalid authorization header format");
    assert_eq!(AuthRejection::TokenInvalid.message(), "Invalid token");
}

#[test]
fn claims_without_an_id_as_subject_are_an_invalid_token() {
    let claims = Claims { sub: "nobody".to_string(), exp: 2, iat: 1 };
    assert_eq!(AuthMiddleware::user_of(&claims), Err(AuthRejection::TokenInvalid));
    let claims = Claims { sub: "550e8400-e29b-41d4-a716-446655440000".to_string(), exp: 2, iat: 1 };
    assert_eq!(
        AuthMiddleware::user_of(&claims),
        Ok(RecordId::new(0x550e8400_e29b_41d4_a716_446655440000))
    );
}

#[test]
fn username_is_made_from_the_local_part() {
    assert_eq!(GoogleAuthService::generate_username_from_email("jane.doe+news@example.com"), "jane_doe_news_google");
    assert_eq!(GoogleAuthService::generate_username_from_email("bob@a@b"), "bob_google");
    assert_eq!(GoogleAuthService::generate_username_from_email("no-at-sign"), "no-at-sign_google");
    assert_eq!(GoogleAuthService::generate_username_from_email("@example.com"), "_google");
    assert_eq!(GoogleAuthService::generate_username_from_email(""), "_google");
}

#[test]
fn password_alphabet_is_letters_then_digits() {
    assert_eq!(GoogleAuthService::password_char(0), 'A');
    assert_eq!(GoogleAuthService::password_char(25), 'Z');
    assert_eq!(GoogleAuthService::password_char(26), 'a');
    assert_eq!(GoogleAuthService::password_char(51), 'z');
    assert_eq!(GoogleAuthService::password_char(52), '0');
    assert_eq!(GoogleAuthService::password_char(61), '9');
}

#[test]
fn random_password_has_32_letters_and_digits() {
    let mut seen = std::collections::HashSet::new();
    for _ in 0..50 {
        let password = GoogleAuthService::generate_random_password();
        assert_eq!(password.chars().count(), 32);
        assert!(password.chars().all(|c| c.is_ascii_alphanumeric()));
        seen.insert(password);
    }
    assert!(seen.len() > 1);
}
