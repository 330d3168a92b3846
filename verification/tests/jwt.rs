use server::jwt::{bearer_token, verify_jwt, verify_jwt_at, AuthorizationHeader, Claims, TOKEN_LIFETIME};
use server::jwt_coding::{decode_jwt, decode_jwt_at, encode_jwt, token_fault};
use server::request_error::RequestError;
use server::users::UserEntity;

const ID: u128 = 0xa936afc8_6079_477a_98af_5c8c8620f67b;
const ID_TEXT: &str = "a936afc8-6079-477a-98af-5c8c8620f67b";
const NOW: u64 = 1_764_447_532;

fn user() -> UserEntity {
    UserEntity {
        id: ID,
        email: "a@b.com".to_string(),
        password: "hash".to_string(),
        created_at: 1_764_447_532_012_315,
        updated_at: 1_764_447_532_012_315,
    }
}

fn unauthorized<T>(r: Result<T, RequestError>) -> String {
    match r {
        Err(RequestError::Unauthorized(context)) => context,
        Err(other) => panic!("expected Unauthorized, got {}", other.to_string()),
        Ok(_) => panic!("expected Unauthorized, got Ok"),
    }
}

fn payload_of(token: &str, secret: &str) -> serde_json::Value {
    let mut rules = jsonwebtoken::Validation::default();
    rules.validate_exp = false;
    let key = jsonwebtoken::DecodingKey::from_secret(secret.as_bytes());
    jsonwebtoken::decode::<serde_json::Value>(token, &key, &rules).unwrap().claims
}

fn token_with(payload: Vec<(&str, serde_json::Value)>, secret: &str) -> String {
    let mut map = serde_json::Map::new();
    for (name, value) in payload {
        map.insert(name.to_string(), value);
    }
    let key = jsonwebtoken::EncodingKey::from_secret(secret.as_bytes());
    jsonwebtoken::encode(&jsonwebtoken::Header::default(), &map, &key).unwrap()
}

#[test]
fn token_lifetime_is_a_day() {
    assert_eq!(TOKEN_LIFETIME, 24 * 60 * 60);
}

#[test]
fn claims_issued_at_a_time_expire_a_day_later() {
    let claims = Claims::issued_at(user(), NOW);
    assert_eq!(claims.sub, ID);
    assert_eq!(claims.email, "a@b.com");
    assert_eq!(claims.iat, 1_764_447_532);
    assert_eq!(claims.exp, 1_764_533_932);
}

#[test]
fn claims_issued_now_follow_the_clock() {
    let before = chrono::Utc::now().timestamp() as u64;
    let claims = Claims::from(user());
    let after = chrono::Utc::now().timestamp() as u64;
    assert_eq!(claims.sub, ID);
    assert_eq!(claims.email, "a@b.com");
    assert!(before <= claims.iat && claims.iat <= after);
    assert_eq!(claims.exp, claims.iat + 86_400);
}

#[test]
fn a_token_has_three_parts_and_the_claims_as_payload() {
    let token = encode_jwt(Claims::issued_at(user(), NOW), "S").unwrap();
    assert_eq!(token.split('.').count(), 3);
    let payload = payload_of(&token, "S");
    assert_eq!(payload.get("sub").and_then(|v| v.as_str()), Some(ID_TEXT));
    assert_eq!(payload.get("email").and_then(|v| v.as_str()), Some("a@b.com"));
    assert_eq!(payload.get("iat").and_then(|v| v.as_u64()), Some(1_764_447_532));
    assert_eq!(payload.get("exp").and_then(|v| v.as_u64()), Some(1_764_533_932));
    assert_eq!(payload.as_object().unwrap().len(), 4);
}

#[test]
fn encoding_is_a_function_of_claims_and_secret() {
    let first = encode_jwt(Claims::issued_at(user(), NOW), "S").unwrap();
    let second = encode_jwt(Claims::issued_at(user(), NOW), "S").unwrap();
    let other_secret = encode_jwt(Claims::issued_at(user(), NOW), "T").unwrap();
    let other_time = encode_jwt(Claims::issued_at(user(), NOW + 1), "S").unwrap();
    assert_eq!(first, second);
    assert_ne!(first, other_secret);
    assert_ne!(first, other_time);
}

#[test]
fn a_token_validates_under_its_secret_until_it_expires() {
    let token = encode_jwt(Claims::issued_at(user(), NOW), "S").unwrap();
    for now in [0, NOW, NOW + 1, NOW + 86_399, NOW + 86_400] {
        let claims = decode_jwt_at(&token, "S", now).unwrap();
        assert_eq!(claims.sub, ID);
        assert_eq!(claims.email, "a@b.com");
        assert_eq!(claims.iat, NOW);
        assert_eq!(claims.exp, NOW + 86_400);
    }
}

#[test]
fn a_token_is_refused_once_it_has_expired() {
    // The refusal reads as that of any other token that is no good.
    let token = encode_jwt(Claims::issued_at(user(), NOW), "S").unwrap();
    for now in [NOW + 86_401, NOW + 86_460, NOW + 1_000_000, u64::MAX] {
        assert_eq!(unauthorized(decode_jwt_at(&token, "S", now)), "invalid token");
    }
}

#[test]
fn a_token_is_refused_under_another_secret() {
    let token = encode_jwt(Claims::issued_at(user(), NOW), "S").unwrap();
    for secret in ["T", "s", "", "SS", "S "] {
        assert_eq!(unauthorized(decode_jwt_at(&token, secret, NOW)), "invalid token");
    }
}

#[test]
fn a_secret_padded_with_zero_bytes_is_the_same_key() {
    // HMAC pads a short key with zero bytes, so these two secrets sign alike.
    let token = encode_jwt(Claims::issued_at(user(), NOW), "S").unwrap();
    let padded = encode_jwt(Claims::issued_at(user(), NOW), "S\0").unwrap();
    assert_eq!(token, padded);
    assert_eq!(decode_jwt_at(&token, "S\0\0", NOW).unwrap().sub, ID);
}

#[test]
fn validation_by_the_clock_accepts_fresh_tokens_and_refuses_old_ones() {
    let fresh = encode_jwt(Claims::from(user()), "S").unwrap();
    let claims = decode_jwt(&fresh, "S").unwrap();
    assert_eq!(claims.sub, ID);
    assert_eq!(claims.email, "a@b.com");
    assert_eq!(unauthorized(decode_jwt(&fresh, "T")), "invalid token");

    let old = encode_jwt(Claims::issued_at(user(), 1_000_000_000), "S").unwrap();
    assert_eq!(unauthorized(decode_jwt(&old, "S")), "invalid token");
    // Expired by a few seconds is expired.
    let just_old = Claims {
        sub: ID,
        email: "a@b.com".to_string(),
        iat: 0,
        exp: chrono::Utc::now().timestamp() as u64 - 5,
    };
    let just_old = encode_jwt(just_old, "S").unwrap();
    assert_eq!(unauthorized(decode_jwt(&just_old, "S")), "invalid token");
}

#[test]
fn text_that_is_no_token_is_refused() {
    for token in ["", "abc", "a.b", "a.b.c", "a.b.c.d", "Bearer x"] {
        assert_eq!(unauthorized(decode_jwt_at(token, "S", NOW)), "invalid token");
    }
}

#[test]
fn the_fault_of_a_token_is_told_in_the_token_crates_words() {
    let token = encode_jwt(Claims::issued_at(user(), NOW), "S").unwrap();
    assert_eq!(token_fault(&token, "S"), None);
    assert_eq!(token_fault(&token, "T"), Some("InvalidSignature".to_string()));
    assert_eq!(token_fault("a.b", "S"), Some("InvalidToken".to_string()));
    assert!(token_fault("", "S").is_some());
    let no_exp = token_with(vec![("sub", serde_json::Value::from(ID_TEXT))], "S");
    assert_eq!(token_fault(&no_exp, "S"), Some("Missing required claim: exp".to_string()));
    // An expired token is no fault of the token crate's: the library refuses it.
    let old = encode_jwt(Claims::issued_at(user(), 0), "S").unwrap();
    assert_eq!(token_fault(&old, "S"), None);
    assert_eq!(unauthorized(decode_jwt_at(&old, "S", NOW)), "invalid token");
}

#[test]
fn a_tampered_token_is_refused() {
    let token = encode_jwt(Claims::issued_at(user(), NOW), "S").unwrap();
    let parts: Vec<&str> = token.split('.').collect();
    let other = encode_jwt(Claims::issued_at(user(), NOW + 5), "S").unwrap();
    let other_parts: Vec<&str> = other.split('.').collect();
    let forged = format!("{}.{}.{}", parts[0], other_parts[1], parts[2]);
    assert_eq!(unauthorized(decode_jwt_at(&forged, "S", NOW)), "invalid token");
}

#[test]
fn a_payload_that_is_no_claims_is_refused() {
    let text = |s: &str| serde_json::Value::from(s);
    let number = |n: u64| serde_json::Value::from(n);
    let complete = token_with(
        vec![("sub", text(ID_TEXT)), ("email", text("a@b.com")), ("iat", number(1)), ("exp", number(NOW))],
        "S",
    );
    let claims = decode_jwt_at(&complete, "S", NOW).unwrap();
    assert_eq!((claims.sub, claims.iat, claims.exp), (ID, 1, NOW));

    let no_email = token_with(vec![("sub", text(ID_TEXT)), ("iat", number(1)), ("exp", number(NOW))], "S");
    assert_eq!(unauthorized(decode_jwt_at(&no_email, "S", NOW)), "invalid token");
    let no_iat = token_with(vec![("sub", text(ID_TEXT)), ("email", text("a@b.com")), ("exp", number(NOW))], "S");
    assert_eq!(unauthorized(decode_jwt_at(&no_iat, "S", NOW)), "invalid token");
    let no_sub = token_with(vec![("email", text("a@b.com")), ("iat", number(1)), ("exp", number(NOW))], "S");
    assert_eq!(unauthorized(decode_jwt_at(&no_sub, "S", NOW)), "invalid token");
    let sub_no_uuid = token_with(
        vec![("sub", text("rost")), ("email", text("a@b.com")), ("iat", number(1)), ("exp", number(NOW))],
        "S",
    );
    assert_eq!(unauthorized(decode_jwt_at(&sub_no_uuid, "S", NOW)), "invalid token");
    let email_number = token_with(
        vec![("sub", text(ID_TEXT)), ("email", number(7)), ("iat", number(1)), ("exp", number(NOW))],
        "S",
    );
    assert_eq!(unauthorized(decode_jwt_at(&email_number, "S", NOW)), "invalid token");
    // Without a time of expiry the token crate itself refuses.
    let no_exp = token_with(vec![("sub", text(ID_TEXT)), ("email", text("a@b.com")), ("iat", number(1))], "S");
    assert_eq!(unauthorized(decode_jwt_at(&no_exp, "S", NOW)), "invalid token");
}

#[test]
fn a_subject_in_any_written_form_of_a_uuid_is_read() {
    let text = |s: &str| serde_json::Value::from(s);
    let number = |n: u64| serde_json::Value::from(n);
    for written in [ID_TEXT, "a936afc86079477a98af5c8c8620f67b", "A936AFC8-6079-477A-98AF-5C8C8620F67B"] {
        let token = token_with(
            vec![("sub", text(written)), ("email", text("a@b.com")), ("iat", number(1)), ("exp", number(NOW))],
            "S",
        );
        assert_eq!(decode_jwt_at(&token, "S", NOW).unwrap().sub, ID);
    }
}

#[test]
fn bearer_token_wants_the_exact_prefix_and_a_token_that_is_not_blank() {
    assert_eq!(bearer_token("Bearer abc.def.ghi"), Some("abc.def.ghi"));
    assert_eq!(bearer_token("Bearer x"), Some("x"));
    assert_eq!(bearer_token("Bearer  x "), Some(" x "));
    assert_eq!(bearer_token("Bearer Bearer x"), Some("Bearer x"));
    assert_eq!(bearer_token("Bearer \u{3000}é"), Some("\u{3000}é"));
    assert_eq!(bearer_token("Bearer "), None);
    assert_eq!(bearer_token("Bearer    "), None);
    assert_eq!(bearer_token("Bearer \t\n\u{3000}"), None);
    assert_eq!(bearer_token("Bearer"), None);
    assert_eq!(bearer_token(""), None);
    assert_eq!(bearer_token("bearer x"), None);
    assert_eq!(bearer_token("BEARER x"), None);
    assert_eq!(bearer_token(" Bearer x"), None);
    assert_eq!(bearer_token("Bearerx"), None);
    assert_eq!(bearer_token("Basic dXNlcjpwYXNz"), None);
    assert_eq!(bearer_token("é"), None);
}

#[test]
fn blank_is_what_std_counts_as_white_space() {
    let listed = |code: u32| {
        (0x0009..=0x000D).contains(&code)
            || code == 0x0020
            || code == 0x0085
            || code == 0x00A0
            || code == 0x1680
            || (0x2000..=0x200A).contains(&code)
            || code == 0x2028
            || code == 0x2029
            || code == 0x202F
            || code == 0x205F
            || code == 0x3000
    };
    let mut white = 0;
    for code in 0..=0x10FFFF_u32 {
        if let Some(c) = char::from_u32(code) {
            let value = format!("Bearer {}", c);
            let blank = bearer_token(&value).is_none();
            assert_eq!(blank, listed(code), "U+{:04X}", code);
            assert_eq!(blank, c.is_whitespace(), "U+{:04X}", code);
            if blank {
                white += 1;
            }
        }
    }
    assert_eq!(white, 25);
}

#[test]
fn a_token_is_never_blank() {
    for secret in ["", "S", " "] {
        let token = encode_jwt(Claims::issued_at(user(), NOW), secret).unwrap();
        assert!(token.contains('.'));
        let value = format!("Bearer {}", token);
        assert_eq!(bearer_token(&value), Some(token.as_str()));
    }
}

#[test]
fn the_guard_lets_a_good_token_pass() {
    let token = encode_jwt(Claims::issued_at(user(), NOW), "S").unwrap();
    let header = AuthorizationHeader::Text(format!("Bearer {}", token));
    let claims = verify_jwt_at(Some("S"), &header, NOW + 10).unwrap();
    assert_eq!(claims.sub, ID);
    assert_eq!(claims.email, "a@b.com");
    assert_eq!(claims.exp, NOW + 86_400);
}

#[test]
fn the_guard_refuses_what_is_no_good_token() {
    let token = encode_jwt(Claims::issued_at(user(), NOW), "S").unwrap();
    let good = AuthorizationHeader::Text(format!("Bearer {}", token));
    assert_eq!(unauthorized(verify_jwt_at(Some("S"), &AuthorizationHeader::Missing, NOW)), "Extract token error");
    let unreadable = AuthorizationHeader::Unreadable("failed to convert header to a str".to_string());
    assert_eq!(unauthorized(verify_jwt_at(Some("S"), &unreadable, NOW)), "failed to convert header to a str");
    let blank = AuthorizationHeader::Text("Bearer ".to_string());
    assert_eq!(unauthorized(verify_jwt_at(Some("S"), &blank, NOW)), "Extract token error");
    let bare = AuthorizationHeader::Text(token.clone());
    assert_eq!(unauthorized(verify_jwt_at(Some("S"), &bare, NOW)), "Extract token error");
    let lower = AuthorizationHeader::Text(format!("bearer {}", token));
    assert_eq!(unauthorized(verify_jwt_at(Some("S"), &lower, NOW)), "Extract token error");
    assert_eq!(unauthorized(verify_jwt_at(Some("S"), &good, NOW + 86_401)), "invalid token");
    assert_eq!(unauthorized(verify_jwt_at(Some("T"), &good, NOW)), "invalid token");
    let padded = AuthorizationHeader::Text(format!("Bearer  {}", token));
    assert_eq!(unauthorized(verify_jwt_at(Some("S"), &padded, NOW)), "invalid token");
}

#[test]
fn the_guard_without_a_secret_is_the_servers_fault() {
    let token = encode_jwt(Claims::issued_at(user(), NOW), "S").unwrap();
    let good = AuthorizationHeader::Text(format!("Bearer {}", token));
    for header in [good, AuthorizationHeader::Missing] {
        match verify_jwt_at(None, &header, NOW) {
            Err(RequestError::InternalServerError(context)) => {
                assert_eq!(context, "JWT middleware error: app_data initialize")
            }
            _ => panic!("expected InternalServerError"),
        }
    }
}

#[test]
fn the_guard_by_the_clock() {
    let fresh = encode_jwt(Claims::from(user()), "S").unwrap();
    let header = AuthorizationHeader::Text(format!("Bearer {}", fresh));
    assert_eq!(verify_jwt(Some("S"), &header).unwrap().sub, ID);
    let old = encode_jwt(Claims::issued_at(user(), 1_000_000_000), "S").unwrap();
    let header = AuthorizationHeader::Text(format!("Bearer {}", old));
    assert_eq!(unauthorized(verify_jwt(Some("S"), &header)), "invalid token");
    assert_eq!(unauthorized(verify_jwt(Some("S"), &AuthorizationHeader::Missing)), "Extract token error");
    assert!(matches!(verify_jwt(None, &header), Err(RequestError::InternalServerError(_))));
}
