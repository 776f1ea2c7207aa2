use chat_hub::json::{Json, JsonNumber, Member};
use chat_hub::token::{Instant, TokenType, UserClaim, UserError, UserManager};

const SECRET: &str = "a secret of the server";

fn member(name: &str, value: Json) -> Member {
    Member { name: name.to_string(), value }
}

fn text(value: &str) -> Json {
    Json::String(value.to_string())
}

fn at(secs: i64) -> Instant {
    Instant { secs, nanos: 0 }
}

fn claims_in(token: &str, secret: &str) -> serde_json::Value {
    let mut validation = jsonwebtoken::Validation::default();
    validation.required_spec_claims.clear();
    validation.validate_exp = false;
    let key = jsonwebtoken::DecodingKey::from_secret(secret.as_bytes());
    jsonwebtoken::decode::<serde_json::Value>(token, &key, &validation).unwrap().claims
}

fn claims_document(exp: &str, aud: &str) -> Json {
    Json::Object(vec![
        member("exp", text(exp)),
        member("iat", text("2020-01-01T00:00:00Z")),
        member("aud", text(aud)),
        member("id", Json::Number(JsonNumber::PosInt(12))),
        member("username", text("ann")),
        member("password", text("pw")),
    ])
}

#[test]
fn token_classes_have_their_audience_and_lifetime() {
    assert_eq!(TokenType::AccessToken.audience(), "access");
    assert_eq!(TokenType::RefreshToken.audience(), "refresh");
    assert_eq!(TokenType::AccessToken.lifetime_seconds(), 15 * 60);
    assert_eq!(TokenType::RefreshToken.lifetime_seconds(), 24 * 60 * 60);
}

#[test]
fn instants_are_ordered_by_seconds_then_nanoseconds() {
    let early = Instant { secs: 5, nanos: 999_999_999 };
    let late = Instant { secs: 6, nanos: 0 };
    assert!(early.is_before(&late));
    assert!(!late.is_before(&early));
    assert!(!early.is_before(&early));
    assert!(Instant { secs: 5, nanos: 1 }.is_before(&early));
    assert!(Instant { secs: -1, nanos: 5 }.is_before(&Instant { secs: 0, nanos: 0 }));
}

#[test]
fn seconds_are_added_to_an_instant_unless_they_overflow() {
    let start = Instant { secs: 100, nanos: 7 };
    assert_eq!(start.plus_seconds(900), Some(Instant { secs: 1000, nanos: 7 }));
    assert_eq!(start.plus_seconds(-200), Some(Instant { secs: -100, nanos: 7 }));
    assert_eq!(at(i64::MAX).plus_seconds(1), None);
    assert_eq!(at(i64::MAX - 900).plus_seconds(900), Some(at(i64::MAX)));
    assert_eq!(at(i64::MIN).plus_seconds(-1), None);
}

#[test]
fn claims_are_written_as_a_document() {
    let claim = UserClaim {
        exp: Instant { secs: 1_600_000_900, nanos: 500_000_000 },
        iat: at(1_600_000_000),
        aud: "access".to_string(),
        id: -4,
        username: "ann".to_string(),
        password: "pw".to_string(),
    };
    let doc = claim.to_json().unwrap();
    assert_eq!(
        doc,
        Json::Object(vec![
            member("exp", text("2020-09-13T12:41:40.500Z")),
            member("iat", text("2020-09-13T12:26:40Z")),
            member("aud", text("access")),
            member("id", Json::Number(JsonNumber::NegInt(-4))),
            member("username", text("ann")),
            member("password", text("pw")),
        ])
    );
    assert_eq!(UserClaim::from_json(&doc), Some(claim));
}

#[test]
fn claims_with_an_instant_out_of_range_are_not_written() {
    let claim = UserClaim {
        exp: at(i64::MAX),
        iat: at(0),
        aud: "access".to_string(),
        id: 1,
        username: "ann".to_string(),
        password: "pw".to_string(),
    };
    assert_eq!(claim.to_json(), None);
    let odd_nanos = UserClaim { exp: Instant { secs: 0, nanos: 2_000_000_000 }, ..claim };
    assert_eq!(odd_nanos.to_json(), None);
}

#[test]
fn claims_are_read_from_a_document() {
    let doc = Json::Object(vec![
        member("password", text("pw")),
        member("username", text("ann")),
        member("id", Json::Number(JsonNumber::PosInt(2147483647))),
        member("aud", text("refresh")),
        member("iat", text("1970-01-01T00:00:01+00:00")),
        member("exp", text("1970-01-02T01:00:01.000000002+01:00")),
        member("more", Json::Null),
    ]);
    assert_eq!(
        UserClaim::from_json(&doc),
        Some(UserClaim {
            exp: Instant { secs: 86401, nanos: 2 },
            iat: at(1),
            aud: "refresh".to_string(),
            id: 2147483647,
            username: "ann".to_string(),
            password: "pw".to_string(),
        })
    );
}

#[test]
fn claims_that_miss_a_member_or_hold_a_wrong_one_are_not_read() {
    assert!(UserClaim::from_json(&claims_document("2020-01-01T00:15:00Z", "access")).is_some());
    assert_eq!(UserClaim::from_json(&claims_document("tomorrow", "access")), None);
    assert_eq!(UserClaim::from_json(&Json::Null), None);
    assert_eq!(UserClaim::from_json(&Json::Object(vec![])), None);
    for missing in ["exp", "iat", "aud", "id", "username", "password"] {
        let Json::Object(members) = claims_document("2020-01-01T00:15:00Z", "access") else {
            unreachable!()
        };
        let rest: Vec<Member> = members.into_iter().filter(|m| m.name != missing).collect();
        assert_eq!(UserClaim::from_json(&Json::Object(rest)), None);
    }
    let wide_id = Json::Object(vec![
        member("id", Json::Number(JsonNumber::PosInt(2147483648))),
        member("exp", text("2020-01-01T00:15:00Z")),
        member("iat", text("2020-01-01T00:00:00Z")),
        member("aud", text("access")),
        member("username", text("ann")),
        member("password", text("pw")),
    ]);
    assert_eq!(UserClaim::from_json(&wide_id), None);
    let numeric_exp = Json::Object(vec![
        member("exp", Json::Number(JsonNumber::PosInt(1_600_000_000))),
        member("iat", text("2020-01-01T00:00:00Z")),
        member("aud", text("access")),
        member("id", Json::Number(JsonNumber::PosInt(1))),
        member("username", text("ann")),
        member("password", text("pw")),
    ]);
    assert_eq!(UserClaim::from_json(&numeric_exp), None);
}

#[test]
fn access_token_carries_its_claims_and_ends_after_a_quarter_of_an_hour() {
    let manager = UserManager::new(SECRET.to_string());
    let token = manager
        .issue_token_at(at(1_600_000_000), 12, "ann".to_string(), "pw".to_string(), TokenType::AccessToken)
        .unwrap();
    let claims = claims_in(&token, SECRET);
    assert_eq!(claims.get("iat").unwrap().as_str(), Some("2020-09-13T12:26:40Z"));
    assert_eq!(claims.get("exp").unwrap().as_str(), Some("2020-09-13T12:41:40Z"));
    assert_eq!(claims.get("aud").unwrap().as_str(), Some("access"));
    assert_eq!(claims.get("id").unwrap().as_i64(), Some(12));
    assert_eq!(claims.get("username").unwrap().as_str(), Some("ann"));
    assert_eq!(claims.get("password").unwrap().as_str(), Some("pw"));
    assert_eq!(claims.as_object().unwrap().len(), 6);
}

#[test]
fn refresh_token_ends_after_a_day() {
    let manager = UserManager::new(SECRET.to_string());
    let now = Instant { secs: 1_600_000_000, nanos: 250_000_000 };
    let token = manager
        .issue_token_at(now, -1, "bob".to_string(), "".to_string(), TokenType::RefreshToken)
        .unwrap();
    let claims = claims_in(&token, SECRET);
    assert_eq!(claims.get("iat").unwrap().as_str(), Some("2020-09-13T12:26:40.250Z"));
    assert_eq!(claims.get("exp").unwrap().as_str(), Some("2020-09-14T12:26:40.250Z"));
    assert_eq!(claims.get("aud").unwrap().as_str(), Some("refresh"));
    assert_eq!(claims.get("id").unwrap().as_i64(), Some(-1));
}

#[test]
fn token_is_signed_with_the_secret() {
    let manager = UserManager::new(SECRET.to_string());
    let other = UserManager::new("another secret".to_string());
    let issue = |m: &UserManager| {
        m.issue_token_at(at(0), 1, "ann".to_string(), "pw".to_string(), TokenType::AccessToken).unwrap()
    };
    assert_eq!(issue(&manager), issue(&manager));
    assert_ne!(issue(&manager), issue(&other));
    assert_eq!(issue(&manager).split('.').count(), 3);
}

#[test]
fn token_cannot_be_generated_when_its_expiry_cannot_be_written() {
    let manager = UserManager::new(SECRET.to_string());
    for now in [at(i64::MAX), at(i64::MAX - 900), at(i64::MIN), Instant { secs: 0, nanos: u32::MAX }] {
        assert_eq!(
            manager.issue_token_at(now, 1, "ann".to_string(), "pw".to_string(), TokenType::AccessToken),
            Err(UserError::CannotGenerateToken)
        );
    }
}

#[test]
fn token_issued_now_carries_the_claims() {
    let manager = UserManager::new(SECRET.to_string());
    let token = manager
        .issue_token(7, "ann".to_string(), "pw".to_string(), TokenType::RefreshToken)
        .unwrap();
    let claims = claims_in(&token, SECRET);
    assert_eq!(claims.get("aud").unwrap().as_str(), Some("refresh"));
    assert_eq!(claims.get("id").unwrap().as_i64(), Some(7));
    let claim = UserClaim::from_json(&Json::Object(vec![
        member("exp", text(claims.get("exp").unwrap().as_str().unwrap())),
        member("iat", text(claims.get("iat").unwrap().as_str().unwrap())),
        member("aud", text("refresh")),
        member("id", Json::Number(JsonNumber::PosInt(7))),
        member("username", text("ann")),
        member("password", text("pw")),
    ]))
    .unwrap();
    assert_eq!(claim.exp, Instant { secs: claim.iat.secs + 86400, nanos: claim.iat.nanos });
    assert!(claim.iat.secs > 1_600_000_000);
}

#[test]
fn old_token_that_did_not_pass_the_check_cannot_be_decoded() {
    let manager = UserManager::new(SECRET.to_string());
    assert_eq!(
        manager.reissue_decoded(None, at(0), TokenType::AccessToken),
        Err(UserError::CannotDecodeToken)
    );
}

#[test]
fn old_token_with_other_claims_cannot_be_decoded() {
    let manager = UserManager::new(SECRET.to_string());
    let decoded = Json::Object(vec![member("exp", Json::Number(JsonNumber::PosInt(4_000_000_000)))]);
    assert_eq!(
        manager.reissue_decoded(Some(decoded), at(0), TokenType::AccessToken),
        Err(UserError::CannotDecodeToken)
    );
}

#[test]
fn old_token_of_the_other_class_does_not_match() {
    let manager = UserManager::new(SECRET.to_string());
    let decoded = claims_document("2020-01-01T00:15:00Z", "refresh");
    assert_eq!(
        manager.reissue_decoded(Some(decoded), at(0), TokenType::AccessToken),
        Err(UserError::TokenTypeDoesNotMatch)
    );
    let expired_and_other = claims_document("1999-01-01T00:00:00Z", "access");
    assert_eq!(
        manager.reissue_decoded(Some(expired_and_other), at(1_600_000_000), TokenType::RefreshToken),
        Err(UserError::TokenTypeDoesNotMatch)
    );
}

#[test]
fn old_token_past_its_expiry_has_expired() {
    let manager = UserManager::new(SECRET.to_string());
    let expiry = 1_577_837_700;
    let decoded = || Some(claims_document("2020-01-01T00:15:00Z", "access"));
    assert_eq!(
        manager.reissue_decoded(decoded(), Instant { secs: expiry, nanos: 1 }, TokenType::AccessToken),
        Err(UserError::TokenExpired)
    );
    assert_eq!(
        manager.reissue_decoded(decoded(), at(expiry + 1), TokenType::AccessToken),
        Err(UserError::TokenExpired)
    );
    assert!(manager.reissue_decoded(decoded(), at(expiry), TokenType::AccessToken).is_ok());
}

#[test]
fn old_token_in_time_earns_a_new_one_for_the_same_user() {
    let manager = UserManager::new(SECRET.to_string());
    let now = at(1_577_837_000);
    let decoded = claims_document("2020-01-01T00:15:00Z", "access");
    let reissued = manager.reissue_decoded(Some(decoded), now, TokenType::AccessToken);
    let fresh =
        manager.issue_token_at(now, 12, "ann".to_string(), "pw".to_string(), TokenType::AccessToken);
    assert!(fresh.is_ok());
    assert_eq!(reissued, fresh);
    let claims = claims_in(&reissued.unwrap(), SECRET);
    assert_eq!(claims.get("exp").unwrap().as_str(), Some("2020-01-01T00:18:20Z"));
}

#[test]
fn text_that_is_no_token_cannot_be_decoded() {
    let manager = UserManager::new(SECRET.to_string());
    for old in ["", "a.b.c", "not a token"] {
        assert_eq!(
            manager.reissue_token(old.to_string(), TokenType::AccessToken),
            Err(UserError::CannotDecodeToken)
        );
    }
}

#[test]
fn token_signed_with_another_secret_cannot_be_decoded() {
    let manager = UserManager::new(SECRET.to_string());
    let mut claims = serde_json::Map::new();
    claims.insert("exp".to_string(), serde_json::Value::from(4_000_000_000u64));
    let key = jsonwebtoken::EncodingKey::from_secret("another secret".as_bytes());
    let foreign = jsonwebtoken::encode(&jsonwebtoken::Header::default(), &claims, &key).unwrap();
    assert_eq!(
        manager.reissue_token(foreign, TokenType::AccessToken),
        Err(UserError::CannotDecodeToken)
    );
}

#[test]
fn checked_token_without_user_claims_cannot_be_decoded() {
    let manager = UserManager::new(SECRET.to_string());
    let mut claims = serde_json::Map::new();
    claims.insert("exp".to_string(), serde_json::Value::from(4_000_000_000u64));
    claims.insert("aud".to_string(), serde_json::Value::from("access"));
    let key = jsonwebtoken::EncodingKey::from_secret(SECRET.as_bytes());
    let checked = jsonwebtoken::encode(&jsonwebtoken::Header::default(), &claims, &key).unwrap();
    assert_eq!(
        manager.reissue_token(checked, TokenType::AccessToken),
        Err(UserError::CannotDecodeToken)
    );
}

#[test]
fn issued_token_does_not_pass_the_check_of_its_expiry() {
    let manager = UserManager::new(SECRET.to_string());
    let token = manager
        .issue_token(7, "ann".to_string(), "pw".to_string(), TokenType::AccessToken)
        .unwrap();
    assert_eq!(
        manager.reissue_token(token, TokenType::AccessToken),
        Err(UserError::CannotDecodeToken)
    );
}
