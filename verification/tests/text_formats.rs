use edu_academy::clock::{format_compact_date, format_rfc3339, now_utc, parse_rfc3339, Timestamp};
use edu_academy::ids::{new_uuid_v4, parse_uuid};
use edu_academy::password::{hash_password, verify_password};
use edu_academy::text::{push_decimal_i64, push_json_string, uuid_to_hyphenated, uuid_to_simple};
use edu_academy::token::{
    generate_token, issue_token, sign_claims, token_claims_json, JWT_SECRET, TOKEN_LIFETIME_SECS,
};

#[test]
fn uuid_text_forms() {
    let x: u128 = 0xa1a2a3a4b1b2c1c2d1d2d3d4d5d6d7d8;
    assert_eq!(uuid_to_hyphenated(x), "a1a2a3a4-b1b2-c1c2-d1d2-d3d4d5d6d7d8");
    assert_eq!(uuid_to_simple(x), "a1a2a3a4b1b2c1c2d1d2d3d4d5d6d7d8");
    assert_eq!(uuid_to_hyphenated(0), "00000000-0000-0000-0000-000000000000");
    assert_eq!(uuid_to_simple(u128::MAX), "ffffffffffffffffffffffffffffffff");
}

#[test]
fn uuid_text_matches_uuid_crate() {
    for _ in 0..20 {
        let x = new_uuid_v4();
        let u = uuid::Uuid::from_u128(x);
        assert_eq!(uuid_to_hyphenated(x), u.to_string());
        assert_eq!(uuid_to_simple(x), u.simple().to_string());
    }
}

#[test]
fn uuid_text_reads_back() {
    let x: u128 = 0x550e8400e29b41d4a716446655440000;
    assert_eq!(parse_uuid(&uuid_to_hyphenated(x)), Ok(x));
    assert_eq!(parse_uuid("550e8400-e29b-41d4-a716-446655440000"), Ok(x));
    assert!(parse_uuid("not-a-uuid").is_err());
    assert!(!parse_uuid("").unwrap_err().is_empty());
}

#[test]
fn fresh_uuids_are_random_version_4() {
    let a = new_uuid_v4();
    let b = new_uuid_v4();
    assert_ne!(a, b);
    assert_eq!(uuid::Uuid::from_u128(a).get_version_num(), 4);
}

#[test]
fn decimal_text() {
    for n in [0i64, 7, 42, -7, 1234567890, i64::MIN, i64::MAX, -1] {
        let mut s = String::from("x=");
        push_decimal_i64(&mut s, n);
        assert_eq!(s, format!("x={}", n));
    }
}

#[test]
fn json_string_escaping_matches_serde_json() {
    let samples = [
        "plain",
        "",
        "quote \" and backslash \\",
        "lines\nand\ttabs\r",
        "controls \u{1}\u{8}\u{c}\u{1f}\u{7f}",
        "unicode é 中 🎓",
        "slash / stays",
    ];
    for t in samples {
        let mut s = String::new();
        push_json_string(&mut s, t);
        assert_eq!(s, serde_json::to_string(t).unwrap());
    }
}

#[test]
fn claims_json_matches_serde_json_object() {
    let claims = token_claims_json("user-1", "a\"b@example.com", true, 1700000000);
    assert_eq!(claims, "{\"admin\":true,\"email\":\"a\\\"b@example.com\",\"exp\":1700000000,\"sub\":\"user-1\"}");
    let mut m = serde_json::Map::new();
    m.insert("sub".to_string(), serde_json::Value::String("user-1".to_string()));
    m.insert("email".to_string(), serde_json::Value::String("a\"b@example.com".to_string()));
    m.insert("admin".to_string(), serde_json::Value::Bool(true));
    m.insert("exp".to_string(), serde_json::Value::from(1700000000i64));
    assert_eq!(claims, serde_json::to_string(&serde_json::Value::Object(m)).unwrap());
    assert_eq!(
        token_claims_json("u", "e", false, -5),
        "{\"admin\":false,\"email\":\"e\",\"exp\":-5,\"sub\":\"u\"}"
    );
}

fn decode_claims(token: &str) -> serde_json::Value {
    let mut validation = jsonwebtoken::Validation::new(jsonwebtoken::Algorithm::HS256);
    validation.validate_exp = false;
    validation.required_spec_claims.clear();
    jsonwebtoken::decode::<serde_json::Value>(
        token,
        &jsonwebtoken::DecodingKey::from_secret(JWT_SECRET.as_bytes()),
        &validation,
    )
    .unwrap()
    .claims
}

#[test]
fn signed_claims_decode_back() {
    let claims = token_claims_json("abc", "a@b.c", false, 99);
    let token = sign_claims(&claims, JWT_SECRET).unwrap();
    assert_ne!(token, claims);
    assert_eq!(token.split('.').count(), 3);
    let decoded = decode_claims(&token);
    assert_eq!(decoded["sub"], "abc");
    assert_eq!(decoded["email"], "a@b.c");
    assert_eq!(decoded["admin"], false);
    assert_eq!(decoded["exp"], 99);
    assert!(sign_claims("not json", JWT_SECRET).is_err());
}

#[test]
fn issued_token_expires_after_seven_days() {
    let token = issue_token("id-1", "x@y.z", true, Timestamp { secs: 1000, nanos: 5 });
    let decoded = decode_claims(&token);
    assert_eq!(decoded["exp"], 1000 + 604800);
    assert_eq!(decoded["admin"], true);
    assert_eq!(TOKEN_LIFETIME_SECS, 7 * 24 * 3600);
}

#[test]
fn generated_token_names_the_user() {
    let before = now_utc().secs;
    let token = generate_token("id-2", "u@v.w", false);
    let after = now_utc().secs;
    let decoded = decode_claims(&token);
    assert_eq!(decoded["sub"], "id-2");
    assert_eq!(decoded["email"], "u@v.w");
    let exp = decoded["exp"].as_i64().unwrap();
    assert!(before + 604800 <= exp && exp <= after + 604800);
}

#[test]
fn password_hash_verifies() {
    let h = hash_password("hunter2", 4).unwrap();
    assert_ne!(h, "hunter2");
    assert_eq!(verify_password("hunter2", &h), Ok(true));
    assert_eq!(verify_password("hunter3", &h), Ok(false));
    assert!(verify_password("hunter2", "not a hash").is_err());
    assert!(hash_password("x", 99).is_err());
}

#[test]
fn rfc3339_text_round_trip() {
    let t = Timestamp { secs: 1431648000, nanos: 0 };
    let s = format_rfc3339(t).unwrap();
    assert_eq!(s, "2015-05-15T00:00:00+00:00");
    assert_eq!(parse_rfc3339(&s), Ok(t));
    let t2 = Timestamp { secs: 1700000000, nanos: 123456789 };
    let s2 = format_rfc3339(t2).unwrap();
    assert_eq!(s2, "2023-11-14T22:13:20.123456789+00:00");
    assert_eq!(parse_rfc3339(&s2), Ok(t2));
    assert_eq!(parse_rfc3339("2015-05-15T02:00:00+02:00"), Ok(t));
    assert!(parse_rfc3339("yesterday").is_err());
    assert_eq!(format_rfc3339(Timestamp { secs: 0, nanos: 2_000_000_000 }), None);
}

#[test]
fn compact_date() {
    assert_eq!(format_compact_date(Timestamp { secs: 1431648000, nanos: 0 }).unwrap(), "20150515");
    assert_eq!(format_compact_date(Timestamp { secs: 0, nanos: 0 }).unwrap(), "19700101");
    let now = now_utc();
    assert_eq!(format_compact_date(now).unwrap().len(), 8);
}

#[test]
fn distinct_ids_have_distinct_texts() {
    assert_ne!(uuid_to_hyphenated(1), uuid_to_hyphenated(1 << 64));
    assert_ne!(uuid_to_simple(0x10), uuid_to_simple(0x01));
}

#[test]
fn password_hash_carries_its_cost() {
    let h = hash_password("pw", 5).unwrap();
    assert_eq!(h.len(), 60);
    assert!(h.starts_with("$2b$05$"));
}

#[test]
fn claims_of_any_account_sign() {
    let claims = token_claims_json("a\u{1}\"", "\n\u{7f}é", false, i64::MIN);
    assert!(sign_claims(&claims, JWT_SECRET).is_ok());
}

#[test]
fn compact_date_has_eight_digits_in_early_years() {
    // 0099-01-01T00:00:00Z
    let d = format_compact_date(Timestamp { secs: -59042995200, nanos: 0 }).unwrap();
    assert_eq!(d, "00990101");
}

#[test]
fn clock_reading_is_after_epoch_within_a_second() {
    let t = now_utc();
    assert!(t.secs > 1_600_000_000);
    assert!(t.nanos < 1_000_000_000);
}
