use chat_service::jwt::{
    create_token, create_token_at, decode_token, get_duration, is_expired, validate_claims, validate_claims_at, Claims,
    JWTToken, TokenError,
};
use chat_service::time::Timestamp;

const SECRET: &[u8] = b"test-secret";

fn now_secs() -> i64 {
    std::time::SystemTime::now().duration_since(std::time::UNIX_EPOCH).unwrap().as_secs() as i64
}

#[test]
fn claims_json_matches_serde() {
    let c = Claims { sub: -7, jti: "a\"b".to_string(), refresh: true, exp: 1700000000 };
    assert_eq!(c.to_json(), r#"{"sub":-7,"jti":"a\"b","refresh":true,"exp":1700000000}"#);
    let c = Claims { sub: 42, jti: "x".to_string(), refresh: false, exp: 0 };
    assert_eq!(c.to_json(), r#"{"sub":42,"jti":"x","refresh":false,"exp":0}"#);
}

#[test]
fn durations_from_settings() {
    assert_eq!(get_duration(None, 60), 60);
    assert_eq!(get_duration(Some("120"), 60), 120);
    assert_eq!(get_duration(Some("-5"), 60), -5);
    assert_eq!(get_duration(Some("abc"), 60), 60);
    assert_eq!(get_duration(Some(" 10"), 60), 60);
    assert_eq!(JWTToken::get_token_durations(None, None), (60, 300));
    assert_eq!(JWTToken::get_token_durations(Some("1"), Some("x")), (1, 300));
}

#[test]
fn token_at_fixed_time_is_deterministic() {
    let now = Timestamp { secs: 1_700_000_000, nanos: 5 };
    let a = create_token_at(3, "jti", false, 60, Timestamp { secs: now.secs, nanos: now.nanos }, SECRET).ok().unwrap();
    let b = create_token_at(3, "jti", false, 60, now, SECRET).ok().unwrap();
    assert_eq!(a, b);
    assert_eq!(a.split('.').count(), 3);
    // the claims part is the base64url of the claims' JSON, with exp = now + 60
    let payload = a.split('.').nth(1).unwrap();
    let claims_json = r#"{"sub":3,"jti":"jti","refresh":false,"exp":1700000060}"#;
    assert_eq!(payload, encode_url_no_pad(claims_json.as_bytes()));
}

const ALPHABET: &[u8] = b"ABCDEFGHIJKLMNOPQRSTUVWXYZabcdefghijklmnopqrstuvwxyz0123456789-_";

fn encode_url_no_pad(input: &[u8]) -> String {
    let mut out = String::new();
    for chunk in input.chunks(3) {
        let b = [chunk[0], *chunk.get(1).unwrap_or(&0), *chunk.get(2).unwrap_or(&0)];
        let n = ((b[0] as u32) << 16) | ((b[1] as u32) << 8) | b[2] as u32;
        let chars = chunk.len() + 1;
        for i in 0..chars {
            out.push(ALPHABET[((n >> (18 - 6 * i)) & 63) as usize] as char);
        }
    }
    out
}

#[test]
fn created_token_decodes_to_its_claims() {
    let t = create_token(9, "abc", true, 300, SECRET).ok().unwrap();
    let json = decode_token(&format!("Bearer {}", t), SECRET).ok().unwrap();
    let v: serde_json::Value = serde_json::from_str(&json).unwrap();
    assert_eq!(v["sub"], 9);
    assert_eq!(v["jti"], "abc");
    assert_eq!(v["refresh"], true);
    let exp = v["exp"].as_i64().unwrap();
    let now = now_secs();
    assert!(exp >= now + 295 && exp <= now + 305);
}

#[test]
fn wrong_secret_or_garbage_is_refused() {
    let t = create_token(1, "j", false, 60, SECRET).ok().unwrap();
    match decode_token(&t, b"other") {
        Err(TokenError::Jwt(m)) => assert_eq!(m, "InvalidSignature"),
        _ => panic!("accepted a token signed with another secret"),
    }
    match decode_token("not a token", SECRET) {
        Err(TokenError::Jwt(m)) => assert_eq!(m, "InvalidToken"),
        _ => panic!("accepted garbage"),
    }
}

#[test]
fn expired_token_is_refused() {
    let t = create_token_at(1, "j", false, 60, Timestamp { secs: 1000, nanos: 0 }, SECRET).ok().unwrap();
    let json = decode_token(&t, SECRET).ok().unwrap();
    assert_eq!(json, r#"{"sub":1,"jti":"j","refresh":false,"exp":1060}"#);
    let claims = Claims { sub: 1, jti: "j".to_string(), refresh: false, exp: 1060 };
    match validate_claims(&t, &claims, SECRET) {
        Err(TokenError::Jwt(m)) => assert_eq!(m, "ExpiredSignature"),
        _ => panic!("accepted an expired token"),
    }
}

#[test]
fn issued_token_is_accepted_until_the_leeway_ends() {
    let t = create_token_at(4, "k", true, 100, Timestamp { secs: 2_000_000_000, nanos: 0 }, SECRET).ok().unwrap();
    let bearer = format!("Bearer {}", t);
    assert_eq!(
        decode_token(&bearer, SECRET).ok().unwrap(),
        r#"{"sub":4,"jti":"k","refresh":true,"exp":2000000100}"#
    );
    let claims = Claims { sub: 4, jti: "k".to_string(), refresh: true, exp: 2_000_000_100 };
    assert!(validate_claims_at(&bearer, &claims, 2_000_000_000, SECRET).is_ok());
    assert!(validate_claims_at(&bearer, &claims, 2_000_000_160, SECRET).is_ok());
    match validate_claims_at(&bearer, &claims, 2_000_000_161, SECRET) {
        Err(TokenError::Jwt(m)) => assert_eq!(m, "ExpiredSignature"),
        _ => panic!("accepted a token past its expiry and leeway"),
    }
    assert!(validate_claims(&bearer, &claims, SECRET).is_ok());
}

#[test]
fn validation_checks_the_token_too() {
    let t = create_token_at(4, "k", false, 100, Timestamp { secs: 2_000_000_000, nanos: 0 }, b"other").ok().unwrap();
    let claims = Claims { sub: 4, jti: "k".to_string(), refresh: false, exp: 2_000_000_100 };
    match validate_claims_at(&t, &claims, 2_000_000_000, SECRET) {
        Err(TokenError::Jwt(m)) => assert_eq!(m, "InvalidSignature"),
        _ => panic!("accepted a token signed with another secret"),
    }
}

#[test]
fn expiry_check_matches_the_leeway() {
    assert!(!is_expired(100, 160));
    assert!(is_expired(100, 161));
    assert!(!is_expired(0, 60));
    assert!(is_expired(0, 61));
    // below the leeway the subtraction wraps, so every expiry is refused
    assert!(is_expired(1_000_000, 59));
    assert!(!is_expired(usize::MAX, 59));
}

#[test]
fn out_of_range_expiry_is_an_error() {
    match create_token(1, "j", false, i64::MAX / 1000, SECRET) {
        Err(e) => {
            assert!(matches!(e, TokenError::InvalidTimestamp));
            assert_eq!(e.message(), "Invalid timestamp");
        }
        Ok(_) => panic!("made a token past the representable dates"),
    }
}

#[test]
fn token_pair_shares_jti_and_differs_in_kind() {
    let pair = JWTToken::create_tokens(5, (60, 300), SECRET).ok().unwrap();
    let a: serde_json::Value = serde_json::from_str(&decode_token(&pair.access_token, SECRET).ok().unwrap()).unwrap();
    let r: serde_json::Value = serde_json::from_str(&decode_token(&pair.refresh_token, SECRET).ok().unwrap()).unwrap();
    assert_eq!(a["sub"], 5);
    assert_eq!(r["sub"], 5);
    assert_eq!(a["jti"], r["jti"]);
    let jti = a["jti"].as_str().unwrap();
    assert_eq!(jti.len(), 64);
    assert!(jti.chars().all(|c| c.is_ascii_digit() || ('a'..='f').contains(&c)));
    assert_eq!(a["refresh"], false);
    assert_eq!(r["refresh"], true);
    assert!(r["exp"].as_i64().unwrap() - a["exp"].as_i64().unwrap() >= 239);
    let ok = JWTToken::create_token(5, (60, 300), SECRET);
    assert!(ok.is_ok());
}

#[test]
fn jti_is_digest_of_login_time_and_user() {
    let jti = JWTToken::jti_for(Timestamp { secs: 1431648000, nanos: 0 }, 42);
    assert_eq!(jti, sha256::digest("2015-05-15 00:00:00 UTC42"));
    assert_eq!(jti.len(), 64);
    let other = JWTToken::jti_for(Timestamp { secs: 1431648000, nanos: 0 }, 43);
    assert_ne!(jti, other);
}

#[test]
fn expiry_past_representable_dates_is_refused_for_that_reading() {
    let last = Timestamp { secs: 8210266876799, nanos: 0 };
    match create_token_at(1, "j", false, 1, last, SECRET) {
        Err(TokenError::InvalidTimestamp) => {}
        _ => panic!("signed a token expiring after the last representable date"),
    }
    let last = Timestamp { secs: 8210266876799, nanos: 0 };
    assert!(create_token_at(1, "j", false, 0, last, SECRET).is_ok());
    let first = Timestamp { secs: -8334601315200, nanos: 0 };
    match create_token_at(1, "j", false, -1, first, SECRET) {
        Err(TokenError::InvalidTimestamp) => {}
        _ => panic!("signed a token expiring before the first representable date"),
    }
}
