use ghb::config::Config;
use ghb::gate::AllowList;
use ghb::minter::SigningError;
use ghb::token::{
    check_token_expiration, create_installation_token, exchange_url, get_installation_token,
    parse_exchange_response, token_from_fields, ExchangeError, InstallationToken, TokenCache, TokenStep,
};

const NOW: i64 = 1_700_000_000;

fn token(value: &str, expires_at: i64) -> InstallationToken {
    InstallationToken { value: value.to_string(), expires_at, installation: 40959841 }
}

fn config(key: &str) -> Config {
    Config {
        github_app_id: "1".to_string(),
        github_app_pk_base64: key.to_string(),
        github_webhook_secret: String::new(),
        bot_cookie_base64: String::new(),
        loggin_enabled: false,
    }
}

fn cached(value: &str, expires_at: i64) -> TokenCache {
    let mut cache = TokenCache::new();
    assert_eq!(cache.commit(Ok(token(value, expires_at))), value);
    cache
}

#[test]
fn empty_cache_needs_an_exchange() {
    let cache = TokenCache::new();
    assert!(cache.current().is_none());
    assert!(!check_token_expiration(&cache, NOW));
}

#[test]
fn hour_token_is_served_until_the_margin() {
    let cache = cached("ghs_one", NOW + 3600);
    for t in [NOW, NOW + 1, NOW + 1800, NOW + 3539] {
        assert!(check_token_expiration(&cache, t));
        match get_installation_token(&cache, &config("!"), &AllowList::standard(), t) {
            TokenStep::Cached(v) => assert_eq!(v, "ghs_one"),
            _ => panic!("expected the cached token at {}", t),
        }
    }
    for t in [NOW + 3540, NOW + 3541, NOW + 3600, NOW + 7200] {
        assert!(!check_token_expiration(&cache, t));
    }
}

#[test]
fn stale_cache_with_bad_key_reports_the_signing_error() {
    let cache = cached("ghs_one", NOW + 3600);
    match get_installation_token(&cache, &config("!"), &AllowList::standard(), NOW + 3540) {
        TokenStep::Unsigned(e) => assert_eq!(e, SigningError::MalformedKey),
        _ => panic!("expected a signing failure"),
    }
    assert_eq!(cache.current().as_ref().unwrap().value, "ghs_one");
}

#[test]
fn exchange_endpoint() {
    assert_eq!(exchange_url(40959841), "https://api.github.com/app/installations/40959841/access_tokens");
    assert_eq!(exchange_url(0), "https://api.github.com/app/installations/0/access_tokens");
}

#[test]
fn exchange_answer_is_read() {
    let body = r#"{"token":"ghs_abc","expires_at":"2023-11-14T23:13:20Z","permissions":{}}"#;
    let t = parse_exchange_response(7, 201, body).unwrap();
    assert_eq!(t.value, "ghs_abc");
    assert_eq!(t.expires_at, 1_700_003_600);
    assert_eq!(t.installation, 7);
}

#[test]
fn exchange_answer_with_offset_expiry() {
    let body = r#"{"token":"ghs_abc","expires_at":"2023-11-15T01:13:20+02:00"}"#;
    assert_eq!(parse_exchange_response(7, 201, body).unwrap().expires_at, 1_700_003_600);
}

#[test]
fn exchange_failures_are_classified() {
    let ok = r#"{"token":"ghs_abc","expires_at":"2023-11-14T23:13:20Z"}"#;
    assert_eq!(parse_exchange_response(7, 401, ok).err(), Some(ExchangeError::Status(401)));
    assert_eq!(parse_exchange_response(7, 200, ok).err(), Some(ExchangeError::Status(200)));
    assert_eq!(parse_exchange_response(7, 201, "not json").err(), Some(ExchangeError::MalformedBody));
    assert_eq!(
        parse_exchange_response(7, 201, r#"{"expires_at":"2023-11-14T23:13:20Z"}"#).err(),
        Some(ExchangeError::MissingToken)
    );
    assert_eq!(
        parse_exchange_response(7, 201, r#"{"token":"","expires_at":"2023-11-14T23:13:20Z"}"#).err(),
        Some(ExchangeError::MissingToken)
    );
    assert_eq!(
        parse_exchange_response(7, 201, r#"{"token":"t","expires_at":"tomorrow"}"#).err(),
        Some(ExchangeError::MalformedExpiry)
    );
    assert_eq!(parse_exchange_response(7, 201, r#"{"token":"t"}"#).err(), Some(ExchangeError::MalformedExpiry));
}

#[test]
fn fields_make_a_token() {
    let t = token_from_fields(3, Some("v".to_string()), Some("1970-01-01T00:01:00Z".to_string())).unwrap();
    assert_eq!((t.value.as_str(), t.expires_at, t.installation), ("v", 60, 3));
    assert_eq!(token_from_fields(3, None, None).err(), Some(ExchangeError::MissingToken));
}

#[test]
fn failed_refresh_keeps_the_cached_token() {
    let mut cache = cached("ghs_old", NOW + 30);
    assert_eq!(create_installation_token(&mut cache, 1, 500, "{}"), "");
    let held = cache.current().as_ref().unwrap();
    assert_eq!((held.value.as_str(), held.expires_at), ("ghs_old", NOW + 30));
    assert_eq!(cache.commit(Err(ExchangeError::Transport)), "");
    assert_eq!(cache.current().as_ref().unwrap().value, "ghs_old");
}

#[test]
fn successful_refresh_replaces_value_and_expiry_together() {
    let mut cache = cached("ghs_old", NOW + 30);
    let body = r#"{"token":"ghs_new","expires_at":"2023-11-14T23:13:20Z"}"#;
    assert_eq!(create_installation_token(&mut cache, 9, 201, body), "ghs_new");
    let held = cache.current().as_ref().unwrap();
    assert_eq!((held.value.as_str(), held.expires_at, held.installation), ("ghs_new", NOW + 3600, 9));
}

#[test]
fn refresh_ticks_from_empty_cache() {
    let mut cache = TokenCache::new();
    assert!(!check_token_expiration(&cache, NOW));
    let body = r#"{"token":"ghs_tick","expires_at":"2023-11-14T23:13:20Z"}"#;
    let v = create_installation_token(&mut cache, 40959841, 201, body);
    assert!(!v.is_empty());
    match get_installation_token(&cache, &config("!"), &AllowList::standard(), NOW + 180) {
        TokenStep::Cached(v2) => assert_eq!(v2, v),
        _ => panic!("second tick must not exchange"),
    }
}

#[test]
fn decision_by_the_system_clock() {
    let cache = cached("ghs_far", i64::MAX);
    match ghb::token::get_installation_token_now(&cache, &config("!"), &AllowList::standard()) {
        TokenStep::Cached(v) => assert_eq!(v, "ghs_far"),
        _ => panic!("a token that never expires is served"),
    }
    match ghb::token::get_installation_token_now(&TokenCache::new(), &config("!"), &AllowList::standard()) {
        TokenStep::Unsigned(e) => assert_eq!(e, SigningError::MalformedKey),
        _ => panic!("an empty cache with a bad key cannot mint"),
    }
}

#[test]
fn last_commit_wins_and_failures_keep_it() {
    let mut cache = TokenCache::new();
    cache.commit(Ok(token("ghs_1", NOW + 100)));
    cache.commit(Ok(token("ghs_2", NOW + 200)));
    cache.commit(Err(ExchangeError::MalformedBody));
    let held = cache.current().as_ref().unwrap();
    assert_eq!((held.value.as_str(), held.expires_at), ("ghs_2", NOW + 200));
}
