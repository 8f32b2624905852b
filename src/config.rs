//! Start-up configuration: the app identity, the webhook secret and the bot's
//! session credential, set once and read afterwards.

use vstd::prelude::*;

verus! {

/// The values the bot is configured with.
pub struct Config {
    pub github_app_id: String,
    pub github_app_pk_base64: String,
    pub github_webhook_secret: String,
    pub bot_cookie_base64: String,
    pub loggin_enabled: bool,
}

/// The required secrets, in the order in which they are looked for.
#[derive(Clone, Copy, Debug, PartialEq, Eq, Structural)]
pub enum SecretName {
    GithubAppId,
    GithubAppPkBase64,
    GithubWebhookSecret,
    BotCookieBase64,
}

/// Why the configuration could not be set.
#[derive(Clone, Copy, Debug, PartialEq, Eq, Structural)]
pub enum ConfigError {
    /// A required secret is absent.
    Missing(SecretName),
    /// The configuration had already been set.
    AlreadyInitialized,
}

/// The secrets as read from the environment, each one possibly absent.
pub struct Secrets {
    pub github_app_id: Option<String>,
    pub github_app_pk_base64: Option<String>,
    pub github_webhook_secret: Option<String>,
    pub bot_cookie_base64: Option<String>,
    pub loggin_enabled: Option<String>,
}

/// The first required secret that is absent, if any.
pub open spec fn first_missing(s: Secrets) -> Option<SecretName> {
    if s.github_app_id is None {
        Some(SecretName::GithubAppId)
    } else if s.github_app_pk_base64 is None {
        Some(SecretName::GithubAppPkBase64)
    } else if s.github_webhook_secret is None {
        Some(SecretName::GithubWebhookSecret)
    } else if s.bot_cookie_base64 is None {
        Some(SecretName::BotCookieBase64)
    } else {
        None
    }
}

/// Logging is on exactly when its setting reads `true`.
pub open spec fn logging_flag(v: Option<String>) -> bool {
    match v {
        Some(s) => s@ == "true"@,
        None => false,
    }
}

/// The configuration made of a complete set of secrets.
pub open spec fn config_from(s: Secrets, c: Config) -> bool {
    &&& s.github_app_id == Some(c.github_app_id)
    &&& s.github_app_pk_base64 == Some(c.github_app_pk_base64)
    &&& s.github_webhook_secret == Some(c.github_webhook_secret)
    &&& s.bot_cookie_base64 == Some(c.bot_cookie_base64)
    &&& c.loggin_enabled == logging_flag(s.loggin_enabled)
}

/// A slot that holds the configuration once it has been set.
pub struct ConfigStore {
    config: Option<Config>,
}

impl ConfigStore {
    /// What the store holds.
    pub closed spec fn held(&self) -> Option<Config> {
        self.config
    }

    /// An empty store.
    pub fn new() -> (r: ConfigStore)
        ensures
            r.held() is None,
    {
        ConfigStore { config: None }
    }

    /// Whether the configuration has been set.
    pub fn is_initialized(&self) -> (r: bool)
        ensures
            r == self.held() is Some,
    {
        self.config.is_some()
    }
}

fn is_true(v: &Option<String>) -> (r: bool)
    ensures
        r == logging_flag(*v),
{
    match v {
        Some(s) => {
            let t = String::from_str("true");
            *s == t
        },
        None => false,
    }
}

/// Sets the configuration from the secrets. Fails, leaving the store as it
/// was, when it was already set or when a required secret is absent (the
/// first absent one is named).
pub fn init_config(store: &mut ConfigStore, secrets: Secrets) -> (r: Result<(), ConfigError>)
    ensures
        old(store).held() is Some ==> r == Err::<(), ConfigError>(ConfigError::AlreadyInitialized),
        old(store).held() is None && first_missing(secrets) is Some ==> r == Err::<(), ConfigError>(
            ConfigError::Missing(first_missing(secrets)->0),
        ),
        r is Err ==> final(store).held() == old(store).held(),
        r is Ok <==> old(store).held() is None && first_missing(secrets) is None,
        r is Ok ==> final(store).held() is Some && config_from(secrets, final(store).held()->0),
{
    if store.config.is_some() {
        return Err(ConfigError::AlreadyInitialized);
    }
    let logging = is_true(&secrets.loggin_enabled);
    let Secrets { github_app_id, github_app_pk_base64, github_webhook_secret, bot_cookie_base64, .. } = secrets;
    let github_app_id = match github_app_id {
        Some(v) => v,
        None => return Err(ConfigError::Missing(SecretName::GithubAppId)),
    };
    let github_app_pk_base64 = match github_app_pk_base64 {
        Some(v) => v,
        None => return Err(ConfigError::Missing(SecretName::GithubAppPkBase64)),
    };
    let github_webhook_secret = match github_webhook_secret {
        Some(v) => v,
        None => return Err(ConfigError::Missing(SecretName::GithubWebhookSecret)),
    };
    let bot_cookie_base64 = match bot_cookie_base64 {
        Some(v) => v,
        None => return Err(ConfigError::Missing(SecretName::BotCookieBase64)),
    };
    store.config = Some(
        Config {
            github_app_id,
            github_app_pk_base64,
            github_webhook_secret,
            bot_cookie_base64,
            loggin_enabled: logging,
        },
    );
    Ok(())
}

/// The configuration that was set.
pub fn get_config(store: &ConfigStore) -> (r: &Config)
    requires
        store.held() is Some,
    ensures
        *r == store.held()->0,
{
    store.config.as_ref().unwrap()
}

/// Whether the configuration asks for verbose logging.
pub fn is_logging_enabled(store: &ConfigStore) -> (r: bool)
    requires
        store.held() is Some,
    ensures
        r == store.held()->0.loggin_enabled,
{
    get_config(store).loggin_enabled
}

} // verus!
