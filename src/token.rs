//! OAuth tokens: how grants and refreshes build them, and the decisions that
//! deliver a valid access token.
use vstd::prelude::*;

verus! {

/// Latest instant, in seconds since the Unix epoch, that an RFC 3339
/// timestamp can write (9999-12-31T23:59:59Z).
pub const MAX_INSTANT: i64 = 253402300799;

/// Earliest instant that an RFC 3339 timestamp can write
/// (0000-01-01T00:00:00Z).
pub const MIN_INSTANT: i64 = -62167219200;

/// A secret string. It has no `Debug` form; only `expose` reads it.
pub struct SecretText {
    text: String,
}

impl View for SecretText {
    type V = Seq<char>;

    closed spec fn view(&self) -> Seq<char> {
        self.text@
    }
}

impl SecretText {
    pub fn new(text: String) -> (r: SecretText)
        ensures
            r@ == text@,
    {
        SecretText { text }
    }

    pub fn expose(&self) -> (r: &str)
        ensures
            r@ == self@,
    {
        self.text.as_str()
    }

    pub fn duplicate(&self) -> (r: SecretText)
        ensures
            r == *self,
    {
        SecretText { text: self.text.clone() }
    }
}

/// Why no access token could be delivered.
#[derive(Clone, Copy, Debug, PartialEq, Eq, Structural)]
pub enum AuthError {
    /// No usable token is stored and the refresh token, if any, has expired:
    /// the user must authenticate again.
    ReauthRequired,
    /// A lifetime from the token endpoint puts an expiry outside the
    /// instants that can be stored.
    InvalidExpiry,
}

/// A token pair with its expiry instants, in seconds since the Unix epoch.
pub struct Token {
    pub access: SecretText,
    pub access_expires_at: i64,
    pub refresh: SecretText,
    pub refresh_expires_at: i64,
    /// The redirect URI of the grant that produced the pair.
    pub redirect_uri: String,
    /// When the user last authenticated.
    pub authed_at: Option<i64>,
}

/// The token endpoint's answer to an authorization-code grant; lifetimes in
/// seconds.
pub struct FetchAccessTokenResponse {
    pub access: SecretText,
    pub expires_in: i64,
    pub refresh: SecretText,
    pub refresh_expires_in: i64,
}

/// The token endpoint's answer to a refresh grant.
pub struct RefreshResponse {
    pub access: SecretText,
    pub expires_in: i64,
}

/// The client's identifier and secret at the token endpoint.
pub struct ClientCreds {
    pub id: String,
    pub secret: SecretText,
}

pub open spec fn instant_ok(t: int) -> bool {
    MIN_INSTANT <= t <= MAX_INSTANT
}

pub open spec fn min_int(a: int, b: int) -> int {
    if a <= b { a } else { b }
}

impl Token {
    /// The access token never outlives the refresh token.
    pub open spec fn wf(&self) -> bool {
        &&& MIN_INSTANT <= self.access_expires_at <= self.refresh_expires_at <= MAX_INSTANT
    }

    pub open spec fn access_valid_at(&self, now: int) -> bool {
        now < self.access_expires_at
    }

    pub open spec fn refresh_valid_at(&self, now: int) -> bool {
        now < self.refresh_expires_at
    }
}

/// The token that a grant answered at `now` yields: both expiries counted
/// from `now`, the access expiry capped at the refresh expiry.
pub open spec fn granted(g: FetchAccessTokenResponse, now: int, redirect_uri: String) -> Result<Token, AuthError> {
    let a = now + g.expires_in;
    let r = now + g.refresh_expires_in;
    if instant_ok(a) && instant_ok(r) {
        Ok(Token {
            access: g.access,
            access_expires_at: min_int(a, r) as i64,
            refresh: g.refresh,
            refresh_expires_at: r as i64,
            redirect_uri,
            authed_at: Some(now as i64),
        })
    } else {
        Err(AuthError::InvalidExpiry)
    }
}

/// The token after a refresh answered at `now`: the new access token with its
/// expiry counted from `now` and capped at the refresh expiry; everything
/// else carried over.
pub open spec fn refreshed(t: Token, resp: RefreshResponse, now: int) -> Result<Token, AuthError> {
    let a = now + resp.expires_in;
    if instant_ok(a) {
        Ok(Token {
            access: resp.access,
            access_expires_at: min_int(a, t.refresh_expires_at as int) as i64,
            ..t
        })
    } else {
        Err(AuthError::InvalidExpiry)
    }
}

impl Token {
    /// An equal token.
    pub fn duplicate(&self) -> (r: Token)
        ensures
            r == *self,
    {
        Token {
            access: self.access.duplicate(),
            access_expires_at: self.access_expires_at,
            refresh: self.refresh.duplicate(),
            refresh_expires_at: self.refresh_expires_at,
            redirect_uri: self.redirect_uri.clone(),
            authed_at: self.authed_at,
        }
    }

    /// Whether the access token expires no later than the refresh token, both
    /// within the storable instants.
    pub fn is_wf(&self) -> (r: bool)
        ensures
            r == self.wf(),
    {
        MIN_INSTANT <= self.access_expires_at && self.access_expires_at <= self.refresh_expires_at
            && self.refresh_expires_at <= MAX_INSTANT
    }

    /// The token that an authorization-code grant answered at `now` yields.
    pub fn from_response(response: FetchAccessTokenResponse, now: i64, redirect_uri: String) -> (r: Result<Token, AuthError>)
        requires
            instant_ok(now as int),
        ensures
            r == granted(response, now as int, redirect_uri),
            r matches Ok(t) ==> t.wf(),
    {
        let FetchAccessTokenResponse { access, expires_in, refresh, refresh_expires_in } = response;
        if expires_in < MIN_INSTANT - now || expires_in > MAX_INSTANT - now || refresh_expires_in
            < MIN_INSTANT - now || refresh_expires_in > MAX_INSTANT - now {
            return Err(AuthError::InvalidExpiry);
        }
        let a = now + expires_in;
        let r = now + refresh_expires_in;
        Ok(Token {
            access,
            access_expires_at: if a <= r { a } else { r },
            refresh,
            refresh_expires_at: r,
            redirect_uri,
            authed_at: Some(now),
        })
    }

    /// This token after a refresh answered at `now`.
    pub fn refreshed(&self, response: RefreshResponse, now: i64) -> (r: Result<Token, AuthError>)
        requires
            instant_ok(now as int),
        ensures
            r == refreshed(*self, response, now as int),
            self.wf() ==> (r matches Ok(t) ==> t.wf()),
    {
        let RefreshResponse { access, expires_in } = response;
        if expires_in < MIN_INSTANT - now || expires_in > MAX_INSTANT - now {
            return Err(AuthError::InvalidExpiry);
        }
        let a = now + expires_in;
        Ok(Token {
            access,
            access_expires_at: if a <= self.refresh_expires_at { a } else { self.refresh_expires_at },
            refresh: self.refresh.duplicate(),
            refresh_expires_at: self.refresh_expires_at,
            redirect_uri: self.redirect_uri.clone(),
            authed_at: self.authed_at,
        })
    }
}

/// Authenticating and then refreshing yields a token that keeps the refresh
/// token, its expiry and the redirect URI of the grant, and holds the access
/// token of the refresh.
pub proof fn lemma_refresh_keeps_grant(
    g: FetchAccessTokenResponse,
    t0: int,
    uri: String,
    resp: RefreshResponse,
    t1: int,
)
    requires
        granted(g, t0, uri) is Ok,
        refreshed(granted(g, t0, uri)->Ok_0, resp, t1) is Ok,
    ensures
        ({
            let first = granted(g, t0, uri)->Ok_0;
            let second = refreshed(first, resp, t1)->Ok_0;
            &&& second.refresh@ == g.refresh@
            &&& second.refresh_expires_at == first.refresh_expires_at
            &&& second.access@ == resp.access@
            &&& second.redirect_uri == uri
            &&& second.authed_at == Some(t0 as i64)
        }),
{
}

/// What happens after the token file has been read.
pub enum AccessStep {
    /// Hand out this access token.
    Ready(SecretText),
    /// Refresh this stored token first.
    Refresh(Token),
}

/// The access token that the cache holds and that is still valid at `now`.
pub open spec fn cached_access_spec(cached: Option<Token>, now: int) -> Option<SecretText> {
    match cached {
        Some(t) => if t.access_valid_at(now) {
            Some(t.access)
        } else {
            None
        },
        None => None,
    }
}

/// The decision once the token file has been read at `now`: a valid access
/// token is handed out, an expired one is refreshed while the refresh token
/// lasts, and otherwise the user must authenticate again.
pub open spec fn after_load(loaded: Option<Token>, now: int) -> Result<AccessStep, AuthError> {
    match loaded {
        None => Err(AuthError::ReauthRequired),
        Some(t) => if t.access_valid_at(now) {
            Ok(AccessStep::Ready(t.access))
        } else if t.refresh_valid_at(now) {
            Ok(AccessStep::Refresh(t))
        } else {
            Err(AuthError::ReauthRequired)
        },
    }
}

/// The authenticator's cached token, guarded by its lock for the whole of a
/// lookup, including a refresh.
pub struct TokenCache {
    pub cached: Option<Token>,
}

impl TokenCache {
    pub fn new() -> (r: TokenCache)
        ensures
            r.cached is None,
    {
        TokenCache { cached: None }
    }

    /// The cached access token, when it is still valid at `now`.
    pub fn cached_access(&self, now: i64) -> (r: Option<SecretText>)
        ensures
            r == cached_access_spec(self.cached, now as int),
    {
        match &self.cached {
            Some(t) => if now < t.access_expires_at {
                Some(t.access.duplicate())
            } else {
                None
            },
            None => None,
        }
    }

    /// Takes in the token read from the token file at `now`; a token that is
    /// handed out is cached.
    pub fn on_loaded(&mut self, loaded: Option<Token>, now: i64) -> (r: Result<AccessStep, AuthError>)
        ensures
            r == after_load(loaded, now as int),
            (r matches Ok(AccessStep::Ready(_))) ==> final(self).cached == loaded,
            !(r matches Ok(AccessStep::Ready(_))) ==> final(self).cached == old(self).cached,
    {
        match loaded {
            None => Err(AuthError::ReauthRequired),
            Some(t) => {
                if now < t.access_expires_at {
                    let access = t.access.duplicate();
                    self.cached = Some(t);
                    Ok(AccessStep::Ready(access))
                } else if now < t.refresh_expires_at {
                    Ok(AccessStep::Refresh(t))
                } else {
                    Err(AuthError::ReauthRequired)
                }
            },
        }
    }

    /// Caches the token that an authorization-code grant produced.
    pub fn on_granted(&mut self, token: Token)
        ensures
            final(self).cached == Some(token),
    {
        self.cached = Some(token);
    }

    /// Takes in the answer of the refresh grant for `stale`, made at `now`,
    /// and caches the refreshed token, which is returned to be stored.
    pub fn on_refreshed(&mut self, stale: &Token, response: RefreshResponse, now: i64) -> (r: Result<Token, AuthError>)
        requires
            instant_ok(now as int),
        ensures
            r == refreshed(*stale, response, now as int),
            r matches Ok(t) ==> final(self).cached == Some(t),
            r is Err ==> final(self).cached == old(self).cached,
    {
        match stale.refreshed(response, now) {
            Ok(t) => {
                self.cached = Some(t.duplicate());
                Ok(t)
            },
            Err(e) => Err(e),
        }
    }
}

/// Once a refresh made at `now` has been cached, every caller that takes the
/// lock before the new access token expires is served from the cache, so it
/// sends no refresh of its own.
pub proof fn lemma_refresh_serves_waiters(stale: Token, resp: RefreshResponse, now: int, later: int)
    requires
        refreshed(stale, resp, now) is Ok,
        now <= later,
        later < (refreshed(stale, resp, now)->Ok_0).access_expires_at,
    ensures
        cached_access_spec(Some(refreshed(stale, resp, now)->Ok_0), later) == Some(resp.access),
{
}

/// What the partner-credential flow does with the stored token at `now`.
pub enum SessionStep {
    /// Use the stored token as it is.
    Reuse(Token),
    /// Refresh the stored token's access token first.
    Refresh(Token),
    /// Ask for a new token pair with the static secrets.
    Renew,
}

pub open spec fn session_spec(loaded: Option<Token>, now: int) -> SessionStep {
    match loaded {
        None => SessionStep::Renew,
        Some(t) => if t.access_valid_at(now) {
            SessionStep::Reuse(t)
        } else if t.refresh_valid_at(now) {
            SessionStep::Refresh(t)
        } else {
            SessionStep::Renew
        },
    }
}

/// Decides how the partner-credential flow obtains a session at `now`: the
/// stored token while its access token lasts, a refresh while its refresh
/// token lasts, and otherwise a new token pair.
pub fn session_step(loaded: Option<Token>, now: i64) -> (r: SessionStep)
    ensures
        r == session_spec(loaded, now as int),
{
    match loaded {
        None => SessionStep::Renew,
        Some(t) => {
            if now < t.access_expires_at {
                SessionStep::Reuse(t)
            } else if now < t.refresh_expires_at {
                SessionStep::Refresh(t)
            } else {
                SessionStep::Renew
            }
        },
    }
}

/// The grant asked of the token endpoint.
#[derive(Clone, Copy, Debug, PartialEq, Eq, Structural)]
pub enum GrantType {
    AuthorizationCode,
    RefreshToken,
}

impl GrantType {
    pub open spec fn name(self) -> Seq<char> {
        match self {
            GrantType::AuthorizationCode => "authorization_code"@,
            GrantType::RefreshToken => "refresh_token"@,
        }
    }

    /// The `grant_type` form value.
    pub fn as_str(&self) -> (r: &'static str)
        ensures
            r@ == self.name(),
    {
        match self {
            GrantType::AuthorizationCode => "authorization_code",
            GrantType::RefreshToken => "refresh_token",
        }
    }
}

/// The form sent to the token endpoint.
pub struct TokenRequest {
    pub grant_type: GrantType,
    pub client_id: String,
    pub client_secret: SecretText,
    pub redirect_uri: String,
    pub code: Option<SecretText>,
    pub refresh_token: Option<SecretText>,
}

impl TokenRequest {
    /// Exchanges an authorization code obtained through `redirect_uri`.
    pub fn authorization_code(creds: &ClientCreds, code: SecretText, redirect_uri: &str) -> (r: TokenRequest)
        ensures
            r == (TokenRequest {
                grant_type: GrantType::AuthorizationCode,
                client_id: creds.id,
                client_secret: creds.secret,
                redirect_uri: r.redirect_uri,
                code: Some(code),
                refresh_token: None,
            }),
            r.redirect_uri@ == redirect_uri@,
    {
        TokenRequest {
            grant_type: GrantType::AuthorizationCode,
            client_id: creds.id.clone(),
            client_secret: creds.secret.duplicate(),
            redirect_uri: String::from_str(redirect_uri),
            code: Some(code),
            refresh_token: None,
        }
    }

    /// Refreshes `token`, naming the redirect URI of its grant.
    pub fn refresh(creds: &ClientCreds, token: &Token) -> (r: TokenRequest)
        ensures
            r == (TokenRequest {
                grant_type: GrantType::RefreshToken,
                client_id: creds.id,
                client_secret: creds.secret,
                redirect_uri: token.redirect_uri,
                code: None,
                refresh_token: Some(token.refresh),
            }),
    {
        TokenRequest {
            grant_type: GrantType::RefreshToken,
            client_id: creds.id.clone(),
            client_secret: creds.secret.duplicate(),
            redirect_uri: token.redirect_uri.clone(),
            code: None,
            refresh_token: Some(token.refresh.duplicate()),
        }
    }
}

} // verus!
