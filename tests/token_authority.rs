use clinic::auth::{
    bearer_token, check_claims, claims_at, claims_for, issue_claims, role_decision, verify_claims, Claims,
    Role, UserId, ACCESS_TOKEN_TTL_MINUTES,
};
use clinic::config::{jwt_keys_from_config, AppConfig, ConfigError};
use clinic::error::AppError;

fn user(n: u128) -> UserId {
    UserId { value: n }
}

#[test]
fn role_labels_match_the_role_relation() {
    assert_eq!(Role::Patient.as_str(), "PATIENT");
    assert_eq!(Role::Doctor.as_str(), "DOCTOR");
    assert_eq!(Role::Admin.as_str(), "ADMIN");
}

#[test]
fn claims_expire_ttl_minutes_after_issue() {
    let c = claims_at(user(7), 60, 1_000);
    assert_eq!(c.sub, user(7));
    assert_eq!(c.exp, 4_600);
    let day = claims_at(user(7), ACCESS_TOKEN_TTL_MINUTES, 1_700_000_000);
    assert_eq!(day.exp, 1_700_086_400);
}

#[test]
fn token_valid_before_expiry_and_not_from_it_on() {
    let c = claims_at(user(42), 10, 5_000);
    assert_eq!(check_claims(c, 5_000), Ok(user(42)));
    assert_eq!(check_claims(c, 5_599), Ok(user(42)));
    assert_eq!(check_claims(c, 5_600), Err(AppError::Unauthorized));
    assert_eq!(check_claims(c, 9_999), Err(AppError::Unauthorized));
}

#[test]
fn malformed_and_expired_tokens_are_rejected_alike() {
    let expired = Claims { sub: user(1), exp: 100 };
    let bad_signature = verify_claims(None, 50);
    let too_late = verify_claims(Some(expired), 100);
    assert_eq!(bad_signature, Err(AppError::Unauthorized));
    assert_eq!(too_late, Err(AppError::Unauthorized));
    assert_eq!(bad_signature, too_late);
    assert_eq!(verify_claims(Some(expired), 99), Ok(user(1)));
}

#[test]
fn issued_claims_run_from_the_clock() {
    let before = time::OffsetDateTime::now_utc().unix_timestamp();
    let c = issue_claims(user(9), ACCESS_TOKEN_TTL_MINUTES).unwrap();
    let after = time::OffsetDateTime::now_utc().unix_timestamp();
    assert_eq!(c.sub, user(9));
    assert!(c.exp >= before + 86_400);
    assert!(c.exp <= after + 86_400);
}

#[test]
fn issuing_with_an_absurd_lifetime_fails_as_other() {
    let r = issue_claims(user(9), i64::MAX);
    assert!(matches!(r, Err(AppError::Other(_))));
}

#[test]
fn bearer_header_yields_the_token() {
    assert_eq!(bearer_token(Some("Bearer abc.def.ghi")), Ok("abc.def.ghi"));
    assert_eq!(bearer_token(Some("Bearer ")), Ok(""));
    assert_eq!(bearer_token(Some("Basic abc")), Err(AppError::Unauthorized));
    assert_eq!(bearer_token(Some("bearer abc")), Err(AppError::Unauthorized));
    assert_eq!(bearer_token(None), Err(AppError::Unauthorized));
}

#[test]
fn role_decision_forbids_without_the_row() {
    assert_eq!(role_decision(true), Ok(()));
    assert_eq!(role_decision(false), Err(AppError::Forbidden));
}

#[test]
fn config_requires_url_and_secret_and_defaults_the_rest() {
    let c = AppConfig::from_values(Some("postgres://db".to_string()), Some("s3cret".to_string()), None, None)
        .unwrap();
    assert_eq!(c.bind_addr, "0.0.0.0:8080");
    assert_eq!(c.env, "dev");
    assert_eq!(c.jwt_secret, "s3cret");
    let c2 = AppConfig::from_values(
        Some("postgres://db".to_string()),
        Some("s3cret".to_string()),
        Some("127.0.0.1:9000".to_string()),
        Some("prod".to_string()),
    )
    .unwrap();
    assert_eq!(c2.bind_addr, "127.0.0.1:9000");
    assert_eq!(c2.env, "prod");
    assert_eq!(
        AppConfig::from_values(None, Some("s".to_string()), None, None).unwrap_err(),
        ConfigError::MissingDatabaseUrl
    );
    assert_eq!(
        AppConfig::from_values(Some("u".to_string()), None, None, None).unwrap_err(),
        ConfigError::MissingJwtSecret
    );
}

#[test]
fn keys_from_config_sign_and_check_tokens() {
    let c = AppConfig::from_values(Some("u".to_string()), Some("s3cret".to_string()), None, None).unwrap();
    let keys = jwt_keys_from_config(&c);
    let header = jsonwebtoken::Header::new(jsonwebtoken::Algorithm::HS256);
    let token = jsonwebtoken::encode(&header, &std::collections::BTreeMap::from([("exp", 4_000_000_000u64)]), &keys.enc)
        .unwrap();
    let mut validation = jsonwebtoken::Validation::new(jsonwebtoken::Algorithm::HS256);
    validation.validate_exp = false;
    let decoded = jsonwebtoken::decode::<std::collections::BTreeMap<String, u64>>(&token, &keys.dec, &validation);
    assert!(decoded.is_ok());
    let other = clinic::auth::JwtKeys::from_secret("another");
    assert!(jsonwebtoken::decode::<std::collections::BTreeMap<String, u64>>(&token, &other.dec, &validation).is_err());
}

#[test]
fn claims_for_succeeds_exactly_when_the_expiry_fits() {
    assert_eq!(claims_for(user(3), 60, 1_000), Ok(Claims { sub: user(3), exp: 4_600 }));
    assert_eq!(claims_for(user(3), -1, 60), Ok(Claims { sub: user(3), exp: 0 }));
    assert!(matches!(claims_for(user(3), 1, i64::MAX - 59), Err(AppError::Other(_))));
    assert_eq!(claims_for(user(3), 1, i64::MAX - 60), Ok(Claims { sub: user(3), exp: i64::MAX }));
    assert!(matches!(claims_for(user(3), i64::MIN, 0), Err(AppError::Other(_))));
}
