use ghb::config::{get_config, init_config, is_logging_enabled, ConfigError, ConfigStore, SecretName, Secrets};

fn full(logging: Option<&str>) -> Secrets {
    Secrets {
        github_app_id: Some("12345".to_string()),
        github_app_pk_base64: Some("cGVt".to_string()),
        github_webhook_secret: Some("hook".to_string()),
        bot_cookie_base64: Some("Y29va2ll".to_string()),
        loggin_enabled: logging.map(|s| s.to_string()),
    }
}

#[test]
fn config_is_set_once() {
    let mut store = ConfigStore::new();
    assert!(!store.is_initialized());
    assert_eq!(init_config(&mut store, full(Some("true"))), Ok(()));
    assert!(store.is_initialized());
    let c = get_config(&store);
    assert_eq!(c.github_app_id, "12345");
    assert_eq!(c.github_app_pk_base64, "cGVt");
    assert_eq!(c.github_webhook_secret, "hook");
    assert_eq!(c.bot_cookie_base64, "Y29va2ll");
    assert!(is_logging_enabled(&store));
    assert_eq!(init_config(&mut store, full(None)), Err(ConfigError::AlreadyInitialized));
    assert!(is_logging_enabled(&store));
}

#[test]
fn logging_needs_the_word_true() {
    for (v, expected) in [(None, false), (Some("false"), false), (Some("TRUE"), false), (Some("true"), true)] {
        let mut store = ConfigStore::new();
        init_config(&mut store, full(v)).unwrap();
        assert_eq!(is_logging_enabled(&store), expected);
    }
}

#[test]
fn first_missing_secret_is_named() {
    let mut s = full(None);
    s.github_webhook_secret = None;
    s.bot_cookie_base64 = None;
    let mut store = ConfigStore::new();
    assert_eq!(init_config(&mut store, s), Err(ConfigError::Missing(SecretName::GithubWebhookSecret)));
    assert!(!store.is_initialized());
    let mut s = full(None);
    s.github_app_id = None;
    assert_eq!(init_config(&mut store, s), Err(ConfigError::Missing(SecretName::GithubAppId)));
    let mut s = full(None);
    s.github_app_pk_base64 = None;
    assert_eq!(init_config(&mut store, s), Err(ConfigError::Missing(SecretName::GithubAppPkBase64)));
    let mut s = full(None);
    s.bot_cookie_base64 = None;
    assert_eq!(init_config(&mut store, s), Err(ConfigError::Missing(SecretName::BotCookieBase64)));
}
