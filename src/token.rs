//! The installation-token cache: a token is served while it has more than a
//! safety margin left, and replaced whole by the outcome of an exchange.

use vstd::prelude::*;
use crate::config::Config;
use crate::gate::{installation_for, installation_in, AllowList};
use crate::json::{json_parses, json_str_at, opt_text, parses_as_json, str_at};
use vstd::utf8::encode_utf8;
use crate::minter::{
    assertion_claims, create_token, minted_by, mintable_at, pem_of, refused, rs256_jwt, unix_now,
    SigningError,
};
use crate::text::{decimal, push_decimal};

verus! {

/// A token is treated as expired this many seconds before its real expiry.
pub const SAFETY_MARGIN_SECS: i64 = 60;

/// How often the background loop asks for a token, keeping the cache warm.
pub const REFRESH_INTERVAL_SECS: u64 = 180;

/// The status with which the identity provider answers a successful exchange.
pub const STATUS_CREATED: i32 = 201;

/// The base of GitHub's REST API.
pub const GITHUB_API_BASE: &'static str = "https://api.github.com";

/// The Unix time (seconds) that RFC 3339 text denotes, or `None` when the text
/// is not an RFC 3339 date and time.
pub uninterp spec fn rfc3339_seconds(s: Seq<char>) -> Option<i64>;

/// Relies on chrono's `DateTime::parse_from_rfc3339` and `DateTime::timestamp`.
#[verifier::external_body]
fn parse_rfc3339(s: &str) -> (r: Option<i64>)
    ensures
        r == rfc3339_seconds(s@),
{
    match chrono::DateTime::parse_from_rfc3339(s) {
        Ok(d) => Some(d.timestamp()),
        Err(_) => None,
    }
}

/// An access token scoped to one installation, with its own expiry.
pub struct InstallationToken {
    pub value: String,
    pub expires_at: i64,
    pub installation: i64,
}

/// Whether `t` still has more than the safety margin left at `now`.
pub open spec fn fresh_at(t: InstallationToken, now: int) -> bool {
    t.expires_at - now > SAFETY_MARGIN_SECS
}

/// Why an exchange gave no token.
#[derive(Clone, Copy, Debug, PartialEq, Eq, Structural)]
pub enum ExchangeError {
    /// The request could not be made or its answer could not be read.
    Transport,
    /// The identity provider answered with another status than `201 Created`.
    Status(i32),
    /// The answer is not JSON.
    MalformedBody,
    /// The answer holds no non-empty `token` string.
    MissingToken,
    /// The answer's `expires_at` is missing or not an RFC 3339 date.
    MalformedExpiry,
}

/// The shared credential state: at most one token, always replaced whole.
pub struct TokenCache {
    current: Option<InstallationToken>,
}

/// The state of a cache after an exchange's outcome was committed: a new
/// token replaces the old one, a failure keeps it.
pub open spec fn after_commit(
    held: Option<InstallationToken>,
    outcome: Result<InstallationToken, ExchangeError>,
) -> Option<InstallationToken> {
    match outcome {
        Ok(t) => Some(t),
        Err(_) => held,
    }
}

/// What a cache holding `held` serves at `now` without an exchange.
pub open spec fn serves(held: Option<InstallationToken>, now: int) -> Option<Seq<char>> {
    match held {
        Some(t) => if fresh_at(t, now) {
            Some(t.value@)
        } else {
            None
        },
        None => None,
    }
}

impl TokenCache {
    /// The token the cache holds, if any.
    pub closed spec fn held(&self) -> Option<InstallationToken> {
        self.current
    }

    /// A cache that holds no token.
    pub fn new() -> (r: TokenCache)
        ensures
            r.held() is None,
    {
        TokenCache { current: None }
    }

    /// The token the cache holds, if any.
    pub fn current(&self) -> (r: &Option<InstallationToken>)
        ensures
            *r == self.held(),
    {
        &self.current
    }

    /// Commits the outcome of an exchange and returns the token value that the
    /// caller gets: the new token replaces the cached one whole, value and
    /// expiry together; on a failure the cached token stays and the value is empty.
    pub fn commit(&mut self, outcome: Result<InstallationToken, ExchangeError>) -> (r: String)
        ensures
            final(self).held() == after_commit(old(self).held(), outcome),
            match outcome {
                Ok(t) => r@ == t.value@,
                Err(_) => r@.len() == 0,
            },
    {
        match outcome {
            Ok(t) => {
                let v = t.value.clone();
                self.current = Some(t);
                v
            },
            Err(_) => String::new(),
        }
    }
}

/// Whether the cached token can be served at `now`: one is present and its
/// expiry is more than the safety margin away.
pub fn check_token_expiration(cache: &TokenCache, now: i64) -> (r: bool)
    ensures
        r == serves(cache.held(), now as int) is Some,
{
    match &cache.current {
        Some(t) => (t.expires_at as i128) - (now as i128) > SAFETY_MARGIN_SECS as i128,
        None => false,
    }
}

/// The POST that exchanges an assertion for an installation token.
pub struct ExchangeRequest {
    pub url: String,
    pub bearer: String,
    pub installation: i64,
}

/// What to do to obtain a token.
pub enum TokenStep {
    /// Serve this cached token; no exchange is needed.
    Cached(String),
    /// Send this exchange, then commit what it gives.
    Exchange(ExchangeRequest),
    /// No assertion could be minted; the cache is left as it is.
    Unsigned(SigningError),
}

/// The token-issuance endpoint of an installation.
pub open spec fn exchange_url_of(installation: int) -> Seq<char> {
    GITHUB_API_BASE@ + "/app/installations/"@ + decimal(installation) + "/access_tokens"@
}

/// The token-issuance endpoint of `installation`.
pub fn exchange_url(installation: i64) -> (r: String)
    ensures
        r@ == exchange_url_of(installation as int),
{
    let mut s = String::from_str(GITHUB_API_BASE);
    s.append("/app/installations/");
    push_decimal(&mut s, installation);
    s.append("/access_tokens");
    assert(s@ =~= exchange_url_of(installation as int));
    s
}

/// The cache's decision at `now`: serve the cached token while it is fresh,
/// otherwise mint an assertion at `now` and ask for an exchange for the
/// installation of the bot's organization.
pub fn get_installation_token(cache: &TokenCache, config: &Config, gate: &AllowList, now: i64) -> (r:
    TokenStep)
    requires
        gate.orgs@.len() > 0,
    ensures
        serves(cache.held(), now as int) is Some <==> r is Cached,
        r is Cached ==> serves(cache.held(), now as int) == Some(r->Cached_0@),
        r is Exchange ==> {
            let inst = installation_in(gate.installations@, gate.orgs@[0]@);
            &&& minted_by(*config, now as int, r->Exchange_0.bearer@)
            &&& r->Exchange_0.installation == inst
            &&& r->Exchange_0.url@ == exchange_url_of(inst as int)
        },
        r is Unsigned ==> refused(*config, now as int, r->Unsigned_0),
        serves(cache.held(), now as int) is None && mintable_at(now as int) && pem_of(*config) is Some
            && rs256_jwt(assertion_claims(config.github_app_id@, now as int), pem_of(*config)->0) is Some
            ==> r is Exchange,
{
    if check_token_expiration(cache, now) {
        let v = cache.current.as_ref().unwrap().value.clone();
        return TokenStep::Cached(v);
    }
    match create_token(config, now) {
        Ok(bearer) => {
            let installation = installation_for(gate, gate.home_org().as_str());
            let url = exchange_url(installation);
            TokenStep::Exchange(ExchangeRequest { url, bearer, installation })
        },
        Err(e) => TokenStep::Unsigned(e),
    }
}

/// The cache's decision now, by the system clock.
pub fn get_installation_token_now(cache: &TokenCache, config: &Config, gate: &AllowList) -> (r: TokenStep)
    requires
        gate.orgs@.len() > 0,
    ensures
        r matches TokenStep::Cached(v) ==> exists|now: int| serves(cache.held(), now) == Some(v@),
        r matches TokenStep::Exchange(q) ==> exists|now: int| #[trigger] minted_by(*config, now, q.bearer@),
        r matches TokenStep::Unsigned(e) ==> exists|now: int| #[trigger] refused(*config, now, e),
{
    let now = unix_now();
    get_installation_token(cache, config, gate, now)
}

/// What an exchange answer's `token` and `expires_at` strings give: the
/// token value with its expiry, when the value is non-empty and the expiry an
/// RFC 3339 date.
pub open spec fn exchange_result(token: Option<Seq<char>>, expires_at: Option<Seq<char>>) -> Result<
    (Seq<char>, i64),
    ExchangeError,
> {
    match token {
        Some(v) if v.len() > 0 => match expires_at {
            Some(e) => match rfc3339_seconds(e) {
                Some(ts) => Ok((v, ts)),
                None => Err(ExchangeError::MalformedExpiry),
            },
            None => Err(ExchangeError::MalformedExpiry),
        },
        _ => Err(ExchangeError::MissingToken),
    }
}

/// What an answer with `status` and the body bytes `body` gives.
pub open spec fn exchange_answer(status: i32, body: Seq<u8>) -> Result<(Seq<char>, i64), ExchangeError> {
    if status != STATUS_CREATED {
        Err(ExchangeError::Status(status))
    } else if !json_parses(body) {
        Err(ExchangeError::MalformedBody)
    } else {
        exchange_result(json_str_at(body, "/token"@), json_str_at(body, "/expires_at"@))
    }
}

/// `r` is the outcome `o` for `installation`: the same token value and
/// expiry, or the same error.
pub open spec fn describes(
    r: Result<InstallationToken, ExchangeError>,
    o: Result<(Seq<char>, i64), ExchangeError>,
    installation: i64,
) -> bool {
    match o {
        Ok((v, ts)) => r matches Ok(t) && t.value@ == v && t.expires_at == ts && t.installation
            == installation,
        Err(e) => r == Err::<InstallationToken, ExchangeError>(e),
    }
}

/// The token that an exchange's fields describe: the `token` string must be
/// present and non-empty, and `expires_at` an RFC 3339 date.
pub fn token_from_fields(installation: i64, token: Option<String>, expires_at: Option<String>) -> (r:
    Result<InstallationToken, ExchangeError>)
    ensures
        describes(r, exchange_result(opt_text(token), opt_text(expires_at)), installation),
{
    let value = match token {
        Some(v) => v,
        None => return Err(ExchangeError::MissingToken),
    };
    if value.as_str().unicode_len() == 0 {
        return Err(ExchangeError::MissingToken);
    }
    let e = match expires_at {
        Some(e) => e,
        None => return Err(ExchangeError::MalformedExpiry),
    };
    match parse_rfc3339(e.as_str()) {
        Some(ts) => Ok(InstallationToken { value, expires_at: ts, installation }),
        None => Err(ExchangeError::MalformedExpiry),
    }
}

/// Reads the identity provider's answer to an exchange: a `201` status and a
/// JSON body with `token` and `expires_at`.
pub fn parse_exchange_response(installation: i64, status: i32, body: &str) -> (r: Result<
    InstallationToken,
    ExchangeError,
>)
    ensures
        describes(r, exchange_answer(status, encode_utf8(body@)), installation),
{
    if status != STATUS_CREATED {
        return Err(ExchangeError::Status(status));
    }
    let bytes = body.as_bytes();
    if !parses_as_json(bytes) {
        return Err(ExchangeError::MalformedBody);
    }
    token_from_fields(installation, str_at(bytes, "/token"), str_at(bytes, "/expires_at"))
}

/// Ends an exchange: reads the answer and commits the outcome. A good answer
/// gives its token, which the cache then holds with its own expiry; any other
/// answer gives an empty value and leaves the cache as it was.
pub fn create_installation_token(cache: &mut TokenCache, installation: i64, status: i32, body: &str) -> (r:
    String)
    ensures
        match exchange_answer(status, encode_utf8(body@)) {
            Ok((v, ts)) => {
                &&& r@ == v
                &&& final(cache).held() matches Some(t)
                &&& t.value@ == v
                &&& t.expires_at == ts
                &&& t.installation == installation
            },
            Err(_) => r@.len() == 0 && final(cache).held() == old(cache).held(),
        },
{
    let outcome = parse_exchange_response(installation, status, body);
    cache.commit(outcome)
}

/// Once a token that expires an hour after `now` is cached, every lookup in
/// the next 3539 seconds serves that same token, and every lookup from
/// 3540 seconds on calls for an exchange.
pub proof fn lemma_hour_token_served(t: InstallationToken, now: int, later: int)
    requires
        t.expires_at == now + 3600,
    ensures
        now <= later <= now + 3539 ==> serves(Some(t), later) == Some(t.value@),
        later >= now + 3540 ==> serves(Some(t), later) is None,
{
}

/// Committing a token replaces value and expiry together: afterwards the cache
/// holds exactly the committed pair, never a mix with an earlier token.
pub proof fn lemma_commit_whole(held: Option<InstallationToken>, t: InstallationToken, now: int)
    ensures
        after_commit(held, Ok(t)) == Some(t),
        fresh_at(t, now) ==> serves(after_commit(held, Ok(t)), now) == Some(t.value@),
{
}

/// A failed exchange changes nothing: what was served before is served after.
pub proof fn lemma_failure_keeps_token(held: Option<InstallationToken>, e: ExchangeError, now: int)
    ensures
        after_commit(held, Err(e)) == held,
        serves(after_commit(held, Err(e)), now) == serves(held, now),
{
}

/// The refresh loop from an empty cache: the first tick must exchange; once
/// a good answer is committed, its token is non-empty, and a second tick
/// while it is fresh serves it without another exchange.
pub proof fn lemma_refresh_ticks(status: i32, body: Seq<u8>, t: InstallationToken, first: int, second: int)
    requires
        exchange_answer(status, body) == Ok::<(Seq<char>, i64), ExchangeError>((t.value@, t.expires_at)),
        fresh_at(t, second),
    ensures
        serves(None, first) is None,
        t.value@.len() > 0,
        serves(Some(t), second) == Some(t.value@),
{
}

/// The cache after committing `outcomes` in order.
pub open spec fn after_commits(
    held: Option<InstallationToken>,
    outcomes: Seq<Result<InstallationToken, ExchangeError>>,
) -> Option<InstallationToken>
    decreases outcomes.len(),
{
    if outcomes.len() == 0 {
        held
    } else {
        after_commit(after_commits(held, outcomes.drop_last()), outcomes.last())
    }
}

/// However commits follow one another, the cache holds the token it started
/// with or one committed token whole, never a value paired with another
/// token's expiry; and the last successful commit is the one that stays.
pub proof fn lemma_last_writer_wins(
    held: Option<InstallationToken>,
    outcomes: Seq<Result<InstallationToken, ExchangeError>>,
)
    ensures
        after_commits(held, outcomes) == held || exists|i: int|
            0 <= i < outcomes.len() && outcomes[i] == Ok::<InstallationToken, ExchangeError>(
                after_commits(held, outcomes)->0,
            ),
        outcomes.len() > 0 && outcomes.last() is Ok ==> after_commits(held, outcomes) == Some(
            outcomes.last()->Ok_0,
        ),
    decreases outcomes.len(),
{
    if outcomes.len() > 0 {
        let rest = outcomes.drop_last();
        lemma_last_writer_wins(held, rest);
        if outcomes.last() is Ok {
            assert(outcomes[outcomes.len() - 1] == Ok::<InstallationToken, ExchangeError>(
                after_commits(held, outcomes)->0,
            ));
        } else if after_commits(held, rest) != held {
            let i = choose|i: int|
                0 <= i < rest.len() && rest[i] == Ok::<InstallationToken, ExchangeError>(
                    after_commits(held, rest)->0,
                );
            assert(outcomes[i] == rest[i]);
        }
    }
}

} // verus!
