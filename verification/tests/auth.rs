use chat_backend::config::auth::{check_password, token_from_header, Auth, PasswordCheck};
use chat_backend::config::jwt::{decode_user_token, issue_token, TokenRejected};
use chat_backend::config::middleware::{
    auth_fn_role, auth_fn_token, auth_fn_with_key, unauthorized_response, Authorize, Status,
};

#[test]
fn encrypt_matches_magic_crypt_reference() {
    let auth = Auth { plain: "http://magiclen.org".to_string() };
    assert_eq!(auth.encrypt("magickey"), "DS/2U8royDnJDiNY2ps3f6ZoTbpZo8ZtUGYLGEjwLDQ=");
}

#[test]
fn cipher_text_is_padded_base64_of_the_expected_length() {
    for (plain, len) in [("", 24), ("Hello world", 24), ("0123456789abcdef", 44), ("http://magiclen.org", 44)] {
        let c = Auth { plain: plain.to_string() }.encrypt("k");
        assert_eq!(c.len(), len);
        assert_eq!(c.len() % 4, 0);
        let body = c.trim_end_matches('=');
        assert!(c.len() - body.len() <= 2);
        assert!(body.chars().all(|ch| ch.is_ascii_alphanumeric() || ch == '+' || ch == '/'));
    }
}

#[test]
fn encrypted_password_checks_back() {
    let stored = Auth { plain: "Hello world".to_string() }.encrypt("secret");
    assert_ne!(stored, "Hello world");
    assert_eq!(check_password("secret", &stored, "Hello world"), PasswordCheck::Matches);
    assert_eq!(check_password("secret", &stored, "hello world"), PasswordCheck::Differs);
}

#[test]
fn password_with_wrong_key_or_garbage_is_not_accepted() {
    let stored = Auth { plain: "pw".to_string() }.encrypt("k1");
    assert_ne!(check_password("k2", &stored, "pw"), PasswordCheck::Matches);
    assert_eq!(check_password("k1", "%%% not base64", "pw"), PasswordCheck::Unreadable);
}

#[test]
fn token_is_the_second_word() {
    assert_eq!(token_from_header("Bearer abc.def"), Some("abc.def".to_string()));
    assert_eq!(token_from_header("Bearer x y"), Some("x".to_string()));
    assert_eq!(token_from_header("Bearer  x"), Some("".to_string()));
    assert_eq!(token_from_header("Bearer"), None);
    assert_eq!(token_from_header(""), None);
    assert_eq!(token_from_header(" t"), Some("t".to_string()));
}

#[test]
fn auth_fn_refuses_missing_or_short_headers() {
    for header in [None, Some(""), Some("Bearer")] {
        let err = auth_fn_token(header).unwrap_err();
        assert_eq!(err.status_code, 401);
        assert_eq!(err.message, "Unauthorized");
        assert_eq!(err.status, "fail");
    }
    assert_eq!(auth_fn_token(Some("Bearer tok")).unwrap(), "tok");
}

#[test]
fn auth_fn_compares_roles_as_whole_texts() {
    assert!(auth_fn_role(Some("ADMIN"), "ADMIN").is_ok());
    assert!(auth_fn_role(Some("MEMBER"), "ADMIN").is_err());
    assert!(auth_fn_role(Some("MEMBER"), "ADMIN|MEMBER").is_err());
    assert!(auth_fn_role(None, "ADMIN").is_err());
    let err = auth_fn_role(None, "ADMIN").unwrap_err();
    assert_eq!(err.status_code, unauthorized_response().status_code);
}

#[test]
fn middleware_guard() {
    let guard = Authorize { role: "ADMIN".to_string() };
    let mw = guard.new_transform(7u32);
    assert_eq!(*mw.service(), 7);
    assert_eq!(mw.role(), "ADMIN");
    assert_eq!(mw.token(None), None);
    assert_eq!(mw.token(Some("")), None);
    assert_eq!(mw.token(Some("Bearer t")), Some("t".to_string()));
    assert_eq!(mw.status(Some("ADMIN")), Status::SUCCESS);
    assert_eq!(mw.status(Some("MEMBER")), Status::FAIL);
    assert_eq!(mw.status(None), Status::FAIL);
}

fn member_user() -> chat_backend::interface::global::UserToken {
    chat_backend::interface::global::UserToken {
        nrp: "1234/p".to_string(),
        name: "Zul".to_string(),
        id: 0x67e5_5044_10b1_426f_9247_bb68_0e5f_e0c8,
        role: "MEMBER".to_string(),
        exp: 4_102_444_800,
    }
}

fn signed(claims: serde_json::Value, key: &str) -> String {
    jsonwebtoken::encode(
        &jsonwebtoken::Header::default(),
        &claims,
        &jsonwebtoken::EncodingKey::from_secret(key.as_bytes()),
    )
    .unwrap()
}

#[test]
fn issued_token_reads_back_as_its_user() {
    let user = member_user();
    let token = issue_token(&user, "secret");
    assert_eq!(token.split('.').count(), 3);
    let back = decode_user_token(&token, "secret").unwrap();
    assert_eq!(back.nrp, "1234/p");
    assert_eq!(back.name, "Zul");
    assert_eq!(back.id, user.id);
    assert_eq!(back.role, "MEMBER");
    assert_eq!(back.exp, 4_102_444_800);
    let payload = token.split('.').nth(1).unwrap().to_string();
    assert_ne!(payload, "");
}

#[test]
fn token_under_another_key_or_tampered_is_refused() {
    let token = issue_token(&member_user(), "secret");
    assert!(matches!(decode_user_token(&token, "other"), Err(TokenRejected::Refused(_))));
    let mut tampered = token.clone();
    tampered.push('x');
    assert!(matches!(decode_user_token(&tampered, "secret"), Err(TokenRejected::Refused(_))));
    assert!(matches!(decode_user_token("not a token", "secret"), Err(TokenRejected::Refused(_))));
}

#[test]
fn expired_token_is_refused() {
    let mut user = member_user();
    user.exp = 1_000;
    let token = issue_token(&user, "secret");
    assert!(matches!(decode_user_token(&token, "secret"), Err(TokenRejected::Refused(_))));
}

#[test]
fn token_without_user_claims_is_not_a_user_token() {
    let mut claims = serde_json::Map::new();
    claims.insert("role".to_string(), serde_json::Value::from("ADMIN"));
    claims.insert("exp".to_string(), serde_json::Value::from(4_102_444_800u64));
    let token = signed(serde_json::Value::Object(claims.clone()), "secret");
    assert!(matches!(decode_user_token(&token, "secret"), Err(TokenRejected::NotAUserToken)));
    claims.insert("nrp".to_string(), serde_json::Value::from("1"));
    claims.insert("name".to_string(), serde_json::Value::from("A"));
    claims.insert("id".to_string(), serde_json::Value::from("not-a-uuid"));
    let token = signed(serde_json::Value::Object(claims.clone()), "secret");
    assert!(matches!(decode_user_token(&token, "secret"), Err(TokenRejected::NotAUserToken)));
    claims.insert("id".to_string(), serde_json::Value::from("67e55044-10b1-426f-9247-bb680e5fe0c8"));
    let token = signed(serde_json::Value::Object(claims), "secret");
    let user = decode_user_token(&token, "secret").unwrap();
    assert_eq!(user.id, 0x67e5_5044_10b1_426f_9247_bb68_0e5f_e0c8);
    assert_eq!(user.role, "ADMIN");
}

#[test]
fn guard_with_key_admits_exactly_the_token_role() {
    let token = issue_token(&member_user(), "secret");
    let header = format!("Bearer {}", token);
    assert!(auth_fn_with_key(Some(&header), "secret", "MEMBER").is_ok());
    assert!(auth_fn_with_key(Some(&header), "secret", "ADMIN").is_err());
    assert!(auth_fn_with_key(Some(&header), "secret", "ADMIN|MEMBER").is_err());
    assert!(auth_fn_with_key(Some(&header), "other", "MEMBER").is_err());
    assert!(auth_fn_with_key(Some("Bearer"), "secret", "MEMBER").is_err());
    assert!(auth_fn_with_key(None, "secret", "MEMBER").is_err());
    let err = auth_fn_with_key(Some(&header), "secret", "ADMIN").unwrap_err();
    assert_eq!((err.status_code, err.message.as_str(), err.status.as_str()), (401, "Unauthorized", "fail"));
}

#[test]
fn middleware_check_with_key() {
    let token = issue_token(&member_user(), "secret");
    let header = format!("Bearer {}", token);
    let member = Authorize { role: "MEMBER".to_string() }.new_transform(());
    let admin = Authorize { role: "ADMIN".to_string() }.new_transform(());
    assert_eq!(member.check(Some(&header), "secret"), Status::SUCCESS);
    assert_eq!(admin.check(Some(&header), "secret"), Status::FAIL);
    assert_eq!(member.check(Some(&header), "other"), Status::FAIL);
    assert_eq!(member.check(Some(""), "secret"), Status::FAIL);
    assert_eq!(member.check(None, "secret"), Status::FAIL);
}
