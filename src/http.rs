//! The HTTP envelope's decisions: which host and path a call goes to, how a
//! response is classified, which failures are retried, and how rate-limit
//! headers read.
use vstd::prelude::*;

verus! {

/// Which deployment of the data API is used.
#[derive(Clone, Copy, Debug, PartialEq, Eq, PartialOrd, Ord, Hash, Structural)]
pub enum Environment {
    Sandbox,
    Live,
}

pub open spec fn api_host_spec(env: Environment) -> Seq<char> {
    match env {
        Environment::Sandbox => "api.truelayer-sandbox.com"@,
        Environment::Live => "api.truelayer.com"@,
    }
}

pub open spec fn auth_host_spec(env: Environment) -> Seq<char> {
    match env {
        Environment::Sandbox => "auth.truelayer-sandbox.com"@,
        Environment::Live => "auth.truelayer.com"@,
    }
}

/// Host of the partner-credential bank data API.
pub open spec fn bank_data_host_spec() -> Seq<char> {
    "bankaccountdata.gocardless.com"@
}

/// A path and query that the URI parser keeps as it is written.
pub open spec fn plain_path(p: Seq<char>) -> bool {
    &&& p.len() > 0
    &&& p[0] == '/'
    &&& forall|i: int| 0 <= i < p.len() ==> p[i] != '#'
}

pub open spec fn https_url(host: Seq<char>, path: Seq<char>) -> Seq<char> {
    "https://"@ + host + path
}

/// Longest path and query that the URI parser accepts.
pub const MAX_PATH_LEN: usize = 65534;

/// A character that the URI parser accepts anywhere in a path and query.
pub open spec fn uri_char(c: char) -> bool {
    ('a' <= c <= 'z') || ('A' <= c <= 'Z') || ('0' <= c <= '9') || c == '-' || c == '.' || c == '_'
        || c == '~' || c == '%' || c == '*' || c == '+' || c == '=' || c == '&' || c == '/' || c == '?'
}

/// A path and query that the URI parser accepts and keeps as written.
pub open spec fn uri_path(p: Seq<char>) -> bool {
    &&& plain_path(p)
    &&& p.len() <= MAX_PATH_LEN
    &&& forall|i: int| 0 <= i < p.len() ==> uri_char(#[trigger] p[i])
}

pub open spec fn host_char(c: char) -> bool {
    ('a' <= c <= 'z') || ('A' <= c <= 'Z') || ('0' <= c <= '9') || c == '.' || c == '-'
}

/// A host name, optionally followed by `:` and a decimal port.
pub open spec fn host_port(a: Seq<char>) -> bool {
    &&& a.len() > 0
    &&& host_char(a[0])
    &&& forall|i: int|
        0 <= i < a.len() ==> host_char(#[trigger] a[i]) || (a[i] == ':' && forall|j: int|
            i < j < a.len() ==> '0' <= #[trigger] a[j] <= '9')
}

/// Relies on http's `Uri` builder with scheme `https`: it accepts a host
/// with an optional port and a path and query of at most 65534 URI
/// characters starting with `/`, and the URI prints as scheme, `://`,
/// authority, path and query, as written.
#[verifier::external_body]
fn build_https_uri(host: &str, path_and_query: &str) -> (r: Option<String>)
    requires
        plain_path(path_and_query@),
    ensures
        r matches Some(u) ==> u@ == https_url(host@, path_and_query@),
        host_port(host@) && uri_path(path_and_query@) ==> r is Some,
{
    match hyper::Uri::builder().scheme("https").authority(host).path_and_query(path_and_query).build() {
        Ok(uri) => Some(uri.to_string()),
        Err(_) => None,
    }
}

proof fn lemma_hosts_ok()
    ensures
        host_port("api.truelayer-sandbox.com"@),
        host_port("api.truelayer.com"@),
        host_port("auth.truelayer-sandbox.com"@),
        host_port("auth.truelayer.com"@),
        host_port("bankaccountdata.gocardless.com"@),
{
    reveal_strlit("api.truelayer-sandbox.com");
    reveal_strlit("api.truelayer.com");
    reveal_strlit("auth.truelayer-sandbox.com");
    reveal_strlit("auth.truelayer.com");
    reveal_strlit("bankaccountdata.gocardless.com");
}

pub proof fn lemma_host_of(env: Environment)
    ensures
        host_port(api_host_spec(env)),
        host_port(auth_host_spec(env)),
{
    lemma_hosts_ok();
}

impl Environment {
    pub fn api_host(&self) -> (r: &'static str)
        ensures
            r@ == api_host_spec(*self),
    {
        match self {
            Environment::Sandbox => "api.truelayer-sandbox.com",
            Environment::Live => "api.truelayer.com",
        }
    }

    pub fn auth_host(&self) -> (r: &'static str)
        ensures
            r@ == auth_host_spec(*self),
    {
        match self {
            Environment::Sandbox => "auth.truelayer-sandbox.com",
            Environment::Live => "auth.truelayer.com",
        }
    }

    /// The URL of `path` on the data API; `None` when the URI is refused.
    pub fn api_url(&self, path: &str) -> (r: Option<String>)
        requires
            plain_path(path@),
        ensures
            r matches Some(u) ==> u@ == https_url(api_host_spec(*self), path@),
            uri_path(path@) ==> r is Some,
    {
        proof {
            lemma_host_of(*self);
        }
        build_https_uri(self.api_host(), path)
    }

    /// The URL of `path` on the authorization server.
    pub fn auth_url(&self, path: &str) -> (r: Option<String>)
        requires
            plain_path(path@),
        ensures
            r matches Some(u) ==> u@ == https_url(auth_host_spec(*self), path@),
            uri_path(path@) ==> r is Some,
    {
        proof {
            lemma_host_of(*self);
        }
        build_https_uri(self.auth_host(), path)
    }
}

/// The URL of `path` on the partner-credential bank data API.
pub fn bank_data_url(path: &str) -> (r: Option<String>)
    requires
        plain_path(path@),
    ensures
        r matches Some(u) ==> u@ == https_url(bank_data_host_spec(), path@),
        uri_path(path@) ==> r is Some,
{
    proof {
        lemma_hosts_ok();
    }
    build_https_uri("bankaccountdata.gocardless.com", path)
}

/// What percent-encoding makes of a path segment.
pub uninterp spec fn url_encoded(s: Seq<char>) -> Seq<char>;

pub open spec fn url_safe_char(c: char) -> bool {
    ('a' <= c <= 'z') || ('A' <= c <= 'Z') || ('0' <= c <= '9') || c == '-' || c == '_' || c == '.'
        || c == '~' || c == '%'
}

/// Relies on urlencoding's `encode`: every byte but ASCII letters, digits
/// and `-_.~` is percent-encoded, so only those characters and `%` remain.
#[verifier::external_body]
fn encode_segment(s: &str) -> (r: String)
    ensures
        r@ == url_encoded(s@),
        forall|i: int| 0 <= i < r@.len() ==> url_safe_char(#[trigger] r@[i]),
{
    urlencoding::encode(s).into_owned()
}

/// An endpoint of the data API; the strings are account or card identifiers.
pub enum DataEndpoint {
    Info,
    Accounts,
    Cards,
    AccountBalance(String),
    AccountPending(String),
    AccountStandingOrders(String),
    AccountDirectDebits(String),
    AccountTransactions(String),
    CardBalance(String),
    CardPending(String),
    CardTransactions(String),
}

pub open spec fn data_path_spec(e: DataEndpoint) -> Seq<char> {
    match e {
        DataEndpoint::Info => "/data/v1/info"@,
        DataEndpoint::Accounts => "/data/v1/accounts"@,
        DataEndpoint::Cards => "/data/v1/cards"@,
        DataEndpoint::AccountBalance(id) => "/data/v1/accounts/"@ + url_encoded(id@) + "/balance"@,
        DataEndpoint::AccountPending(id) => "/data/v1/accounts/"@ + url_encoded(id@)
            + "/transactions/pending"@,
        DataEndpoint::AccountStandingOrders(id) => "/data/v1/accounts/"@ + url_encoded(id@)
            + "/standing_orders"@,
        DataEndpoint::AccountDirectDebits(id) => "/data/v1/accounts/"@ + url_encoded(id@)
            + "/direct_debits"@,
        DataEndpoint::AccountTransactions(id) => "/data/v1/accounts/"@ + url_encoded(id@)
            + "/transactions"@,
        DataEndpoint::CardBalance(id) => "/data/v1/cards/"@ + url_encoded(id@) + "/balance"@,
        DataEndpoint::CardPending(id) => "/data/v1/cards/"@ + url_encoded(id@)
            + "/transactions/pending"@,
        DataEndpoint::CardTransactions(id) => "/data/v1/cards/"@ + url_encoded(id@)
            + "/transactions"@,
    }
}

fn under(prefix: &str, id: &str, suffix: &str) -> (r: String)
    requires
        plain_path(prefix@),
        forall|i: int| 0 <= i < prefix@.len() ==> uri_char(#[trigger] prefix@[i]),
        forall|i: int| 0 <= i < suffix@.len() ==> uri_char(#[trigger] suffix@[i]),
    ensures
        r@ == prefix@ + url_encoded(id@) + suffix@,
        plain_path(r@),
        forall|i: int| 0 <= i < r@.len() ==> uri_char(#[trigger] r@[i]),
{
    let mut path = String::from_str(prefix);
    let segment = encode_segment(id);
    path.append(segment.as_str());
    path.append(suffix);
    proof {
        let p = prefix@ + url_encoded(id@) + suffix@;
        assert forall|i: int| 0 <= i < p.len() implies p[i] != '#' && uri_char(#[trigger] p[i]) by {
            if i < prefix@.len() {
                assert(p[i] == prefix@[i]);
            } else if i < prefix@.len() + segment@.len() {
                assert(p[i] == segment@[i - prefix@.len()]);
                assert(url_safe_char(segment@[i - prefix@.len()]));
            } else {
                assert(p[i] == suffix@[i - prefix@.len() - segment@.len()]);
            }
        }
    }
    path
}

/// The path of a data API endpoint.
pub fn data_path(endpoint: &DataEndpoint) -> (r: String)
    ensures
        r@ == data_path_spec(*endpoint),
        plain_path(r@),
        forall|i: int| 0 <= i < r@.len() ==> uri_char(#[trigger] r@[i]),
{
    proof {
        reveal_strlit("/data/v1/info");
        reveal_strlit("/data/v1/accounts");
        reveal_strlit("/data/v1/cards");
        reveal_strlit("/data/v1/accounts/");
        reveal_strlit("/data/v1/cards/");
        reveal_strlit("/balance");
        reveal_strlit("/transactions/pending");
        reveal_strlit("/standing_orders");
        reveal_strlit("/direct_debits");
        reveal_strlit("/transactions");
    }
    match endpoint {
        DataEndpoint::Info => String::from_str("/data/v1/info"),
        DataEndpoint::Accounts => String::from_str("/data/v1/accounts"),
        DataEndpoint::Cards => String::from_str("/data/v1/cards"),
        DataEndpoint::AccountBalance(id) => under("/data/v1/accounts/", id.as_str(), "/balance"),
        DataEndpoint::AccountPending(id) => under("/data/v1/accounts/", id.as_str(), "/transactions/pending"),
        DataEndpoint::AccountStandingOrders(id) => under("/data/v1/accounts/", id.as_str(), "/standing_orders"),
        DataEndpoint::AccountDirectDebits(id) => under("/data/v1/accounts/", id.as_str(), "/direct_debits"),
        DataEndpoint::AccountTransactions(id) => under("/data/v1/accounts/", id.as_str(), "/transactions"),
        DataEndpoint::CardBalance(id) => under("/data/v1/cards/", id.as_str(), "/balance"),
        DataEndpoint::CardPending(id) => under("/data/v1/cards/", id.as_str(), "/transactions/pending"),
        DataEndpoint::CardTransactions(id) => under("/data/v1/cards/", id.as_str(), "/transactions"),
    }
}

/// An endpoint of the partner-credential bank data API; the strings are
/// requisition or account identifiers.
pub enum BankDataEndpoint {
    TokenNew,
    TokenRefresh,
    Requisition(String),
    Account(String),
    AccountBalances(String),
    AccountTransactions(String),
}

pub open spec fn bank_data_path_spec(e: BankDataEndpoint) -> Seq<char> {
    match e {
        BankDataEndpoint::TokenNew => "/api/v2/token/new/"@,
        BankDataEndpoint::TokenRefresh => "/api/v2/token/refresh/"@,
        BankDataEndpoint::Requisition(id) => "/api/v2/requisitions/"@ + url_encoded(id@) + "/"@,
        BankDataEndpoint::Account(id) => "/api/v2/accounts/"@ + url_encoded(id@) + "/"@,
        BankDataEndpoint::AccountBalances(id) => "/api/v2/accounts/"@ + url_encoded(id@) + "/balances/"@,
        BankDataEndpoint::AccountTransactions(id) => "/api/v2/accounts/"@ + url_encoded(id@)
            + "/transactions/"@,
    }
}

/// The path of a bank data API endpoint.
pub fn bank_data_path(endpoint: &BankDataEndpoint) -> (r: String)
    ensures
        r@ == bank_data_path_spec(*endpoint),
        plain_path(r@),
        forall|i: int| 0 <= i < r@.len() ==> uri_char(#[trigger] r@[i]),
{
    proof {
        reveal_strlit("/api/v2/token/new/");
        reveal_strlit("/api/v2/token/refresh/");
        reveal_strlit("/api/v2/requisitions/");
        reveal_strlit("/api/v2/accounts/");
        reveal_strlit("/");
        reveal_strlit("/balances/");
        reveal_strlit("/transactions/");
    }
    match endpoint {
        BankDataEndpoint::TokenNew => String::from_str("/api/v2/token/new/"),
        BankDataEndpoint::TokenRefresh => String::from_str("/api/v2/token/refresh/"),
        BankDataEndpoint::Requisition(id) => under("/api/v2/requisitions/", id.as_str(), "/"),
        BankDataEndpoint::Account(id) => under("/api/v2/accounts/", id.as_str(), "/"),
        BankDataEndpoint::AccountBalances(id) => under("/api/v2/accounts/", id.as_str(), "/balances/"),
        BankDataEndpoint::AccountTransactions(id) => under("/api/v2/accounts/", id.as_str(), "/transactions/"),
    }
}

/// How a response is handled.
#[derive(Clone, Copy, Debug, PartialEq, Eq, Structural)]
pub enum ResponseClass {
    /// Decode the body as the expected type.
    Decode,
    /// A client error with a JSON body: decode the structured error.
    ApiError,
    /// A client error with a body of another kind: keep an excerpt of it.
    ClientErrorText,
    /// A client error without a content type.
    ClientError,
    /// Rate limited or a server error: the call may be retried.
    Retry,
}

pub open spec fn classify_spec(status: int, content_type: Option<Seq<char>>) -> ResponseClass {
    if status == 429 || (500 <= status <= 599) {
        ResponseClass::Retry
    } else if 400 <= status <= 499 {
        match content_type {
            Some(ct) => if ct == "application/json"@ {
                ResponseClass::ApiError
            } else {
                ResponseClass::ClientErrorText
            },
            None => ResponseClass::ClientError,
        }
    } else {
        ResponseClass::Decode
    }
}

pub open spec fn opt_view(o: Option<&str>) -> Option<Seq<char>> {
    match o {
        Some(s) => Some(s@),
        None => None,
    }
}

/// Classifies a response by its status and content type: 429 and 5xx may be
/// retried, other 4xx are client errors told apart by their body, and
/// everything else is decoded.
pub fn classify_response(status: u16, content_type: Option<&str>) -> (r: ResponseClass)
    ensures
        r == classify_spec(status as int, opt_view(content_type)),
{
    if status == 429 || (500 <= status && status <= 599) {
        ResponseClass::Retry
    } else if 400 <= status && status <= 499 {
        match content_type {
            Some(ct) => {
                let json = "application/json";
                if str_eq(ct, json) {
                    ResponseClass::ApiError
                } else {
                    ResponseClass::ClientErrorText
                }
            },
            None => ResponseClass::ClientError,
        }
    } else {
        ResponseClass::Decode
    }
}

/// Whether two strings hold the same characters.
pub fn str_eq(a: &str, b: &str) -> (r: bool)
    ensures
        r == (a@ == b@),
{
    let n = a.unicode_len();
    if n != b.unicode_len() {
        return false;
    }
    let mut i: usize = 0;
    while i < n
        invariant
            n == a@.len(),
            n == b@.len(),
            i <= n,
            forall|j: int| 0 <= j < i ==> a@[j] == b@[j],
        decreases n - i,
    {
        if a.get_char(i) != b.get_char(i) {
            return false;
        }
        i = i + 1;
    }
    proof {
        assert(a@ =~= b@);
    }
    true
}

/// The failures that a call of the envelope surfaces.
#[derive(Debug)]
pub enum HttpError {
    /// The request did not complete (DNS, TCP, TLS, a time-out).
    Transport,
    /// An error status, with an excerpt of the body when there was one.
    HttpStatus { status: u16, body: String },
    /// A client error that the server described.
    Api { summary: String, detail: String, status: u16 },
    /// The body did not match the expected type.
    Decode,
}

pub open spec fn retryable_spec(e: HttpError) -> bool {
    match e {
        HttpError::Transport => true,
        HttpError::HttpStatus { status, .. } => status == 429 || (500 <= status <= 599),
        HttpError::Api { .. } => false,
        HttpError::Decode => false,
    }
}

/// Whether a failed call may be tried again: transport failures, rate
/// limiting and server errors are; client errors and bad bodies are not.
pub fn is_retryable(e: &HttpError) -> (r: bool)
    ensures
        r == retryable_spec(*e),
{
    match e {
        HttpError::Transport => true,
        HttpError::HttpStatus { status, .. } => *status == 429 || (500 <= *status && *status <= 599),
        HttpError::Api { .. } => false,
        HttpError::Decode => false,
    }
}

/// How many characters of an unexpected body an error keeps.
pub const EXCERPT_CHARS: usize = 512;

pub open spec fn excerpt_spec(text: Seq<char>) -> Seq<char> {
    if text.len() <= EXCERPT_CHARS {
        text
    } else {
        text.take(EXCERPT_CHARS as int)
    }
}

/// The start of a response body, at most `EXCERPT_CHARS` characters.
pub fn excerpt(text: &str) -> (r: String)
    ensures
        r@ == excerpt_spec(text@),
{
    let n = text.unicode_len();
    if n <= EXCERPT_CHARS {
        String::from_str(text)
    } else {
        let head = text.substring_char(0, EXCERPT_CHARS);
        proof {
            assert(head@ =~= text@.take(EXCERPT_CHARS as int));
        }
        String::from_str(head)
    }
}

pub open spec fn digit_value(c: char) -> int {
    c as int - '0' as int
}

pub open spec fn all_digits(s: Seq<char>) -> bool {
    s.len() > 0 && forall|i: int| 0 <= i < s.len() ==> '0' <= #[trigger] s[i] <= '9'
}

/// The number that decimal digits write.
pub open spec fn digits_value(s: Seq<char>) -> int
    decreases s.len(),
{
    if s.len() == 0 {
        0
    } else {
        digits_value(s.drop_last()) * 10 + digit_value(s.last())
    }
}

/// The integer that an optional sign and decimal digits write, if `s` is
/// that.
pub open spec fn decimal_spec(s: Seq<char>) -> Option<int> {
    if s.len() > 0 && s[0] == '+' && all_digits(s.drop_first()) {
        Some(digits_value(s.drop_first()))
    } else if s.len() > 0 && s[0] == '-' && all_digits(s.drop_first()) {
        Some(-digits_value(s.drop_first()))
    } else if all_digits(s) {
        Some(digits_value(s))
    } else {
        None
    }
}

pub open spec fn parse_i64_spec(s: Seq<char>) -> Option<i64> {
    match decimal_spec(s) {
        Some(v) => if i64::MIN <= v <= i64::MAX {
            Some(v as i64)
        } else {
            None
        },
        None => None,
    }
}

/// Relies on `i64::from_str`: an optional `+` or `-` followed by ASCII
/// digits, within the range of `i64`; anything else is an error.
#[verifier::external_body]
fn parse_i64(s: &str) -> (r: Option<i64>)
    ensures
        r == parse_i64_spec(s@),
{
    s.parse::<i64>().ok()
}

/// Names of the rate-limit headers, and of their per-account variants.
pub const LIMIT_HEADER: &'static str = "X-RateLimit-Limit";
pub const REMAINING_HEADER: &'static str = "X-RateLimit-Remaining";
pub const RESET_HEADER: &'static str = "X-RateLimit-Reset";
pub const ACCOUNT_LIMIT_HEADER: &'static str = "X-RateLimit-Account-Success-Limit";
pub const ACCOUNT_REMAINING_HEADER: &'static str = "X-RateLimit-Account-Success-Remaining";
pub const ACCOUNT_RESET_HEADER: &'static str = "X-RateLimit-Account-Success-Reset";

/// One of the three rate-limit headers.
#[derive(Clone, Copy, Debug, PartialEq, Eq, Structural)]
pub enum RateHeader {
    Limit,
    Remaining,
    Reset,
}

/// A rate-limit reading: the quota, what is left of it, and when it resets,
/// in seconds since the Unix epoch.
#[derive(Clone, Copy, Debug, PartialEq, Eq, Structural)]
pub struct RateLimit {
    pub limit: i64,
    pub remaining: i64,
    pub reset_at: i64,
}

/// What the rate-limit headers of a response say.
#[derive(Clone, Copy, Debug, PartialEq, Eq, Structural)]
pub enum RateLimitReading {
    Present(RateLimit),
    /// This header, the first one looked at that is absent, is missing.
    Missing(RateHeader),
}

/// The reading of the limit, remaining and reset headers, looked at in that
/// order, of a request started at `started_at`: the first one missing is
/// reported; one that is not an integer, or a reset that leaves the range of
/// `i64`, is an error.
pub open spec fn rate_limit_spec(
    limit: Option<Seq<char>>,
    remaining: Option<Seq<char>>,
    reset: Option<Seq<char>>,
    started_at: int,
) -> Result<RateLimitReading, RateHeader> {
    match limit {
        None => Ok(RateLimitReading::Missing(RateHeader::Limit)),
        Some(l) => match parse_i64_spec(l) {
            None => Err(RateHeader::Limit),
            Some(lv) => match remaining {
                None => Ok(RateLimitReading::Missing(RateHeader::Remaining)),
                Some(m) => match parse_i64_spec(m) {
                    None => Err(RateHeader::Remaining),
                    Some(mv) => match reset {
                        None => Ok(RateLimitReading::Missing(RateHeader::Reset)),
                        Some(t) => match parse_i64_spec(t) {
                            None => Err(RateHeader::Reset),
                            Some(tv) => if i64::MIN <= started_at + tv <= i64::MAX {
                                Ok(RateLimitReading::Present(RateLimit {
                                    limit: lv,
                                    remaining: mv,
                                    reset_at: (started_at + tv) as i64,
                                }))
                            } else {
                                Err(RateHeader::Reset)
                            },
                        },
                    },
                },
            },
        },
    }
}

/// Reads the rate-limit headers of a response to a request started at
/// `started_at`; the reset header counts seconds from then.
pub fn read_rate_limit(
    limit: Option<&str>,
    remaining: Option<&str>,
    reset: Option<&str>,
    started_at: i64,
) -> (r: Result<RateLimitReading, RateHeader>)
    ensures
        r == rate_limit_spec(opt_view(limit), opt_view(remaining), opt_view(reset), started_at as int),
{
    let lv = match limit {
        None => return Ok(RateLimitReading::Missing(RateHeader::Limit)),
        Some(l) => match parse_i64(l) {
            None => return Err(RateHeader::Limit),
            Some(v) => v,
        },
    };
    let mv = match remaining {
        None => return Ok(RateLimitReading::Missing(RateHeader::Remaining)),
        Some(m) => match parse_i64(m) {
            None => return Err(RateHeader::Remaining),
            Some(v) => v,
        },
    };
    let tv = match reset {
        None => return Ok(RateLimitReading::Missing(RateHeader::Reset)),
        Some(t) => match parse_i64(t) {
            None => return Err(RateHeader::Reset),
            Some(v) => v,
        },
    };
    match started_at.checked_add(tv) {
        Some(at) => Ok(RateLimitReading::Present(RateLimit { limit: lv, remaining: mv, reset_at: at })),
        None => Err(RateHeader::Reset),
    }
}

} // verus!
