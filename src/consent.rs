//! The consent flow: the link that starts it, the redirect URI it comes back
//! to, and how the local listener judges a callback.
use vstd::prelude::*;
use crate::http::{
    Environment, MAX_PATH_LEN, auth_host_spec, host_port, lemma_host_of, plain_path, str_eq, uri_char,
    uri_path,
};

verus! {

/// What form encoding makes of a list of name and value pairs.
pub uninterp spec fn form_encoded(pairs: Seq<(Seq<char>, Seq<char>)>) -> Seq<char>;

pub open spec fn pair_views(pairs: Seq<(String, String)>) -> Seq<(Seq<char>, Seq<char>)> {
    pairs.map_values(|p: (String, String)| (p.0@, p.1@))
}

pub open spec fn form_char(c: char) -> bool {
    ('a' <= c <= 'z') || ('A' <= c <= 'Z') || ('0' <= c <= '9') || c == '*' || c == '-' || c == '.'
        || c == '_' || c == '+' || c == '%' || c == '=' || c == '&'
}

/// Relies on serde_urlencoded's `to_string` of a list of string pairs:
/// `name=value` pairs joined by `&`, each byte other than ASCII letters,
/// digits and `*-._` written as `+` (a space) or percent-encoded. String
/// pairs always serialize.
#[verifier::external_body]
fn encode_form(pairs: &Vec<(String, String)>) -> (r: Option<String>)
    ensures
        r is Some,
        r matches Some(q) ==> q@ == form_encoded(pair_views(pairs@)),
        r matches Some(q) ==> forall|i: int| 0 <= i < q@.len() ==> form_char(#[trigger] q@[i]),
{
    serde_urlencoded::to_string(pairs).ok()
}

/// Relies on http's `Uri` builder with scheme `http`: it accepts a host with
/// an optional port and a path of at most 65534 URI characters starting with
/// `/`, and the URI prints as `http://`, authority and path, as written.
#[verifier::external_body]
fn build_http_uri(authority: &str, path: &str) -> (r: Option<String>)
    requires
        plain_path(path@),
    ensures
        r matches Some(u) ==> u@ == "http://"@ + authority@ + path@,
        host_port(authority@) && uri_path(path@) ==> r is Some,
{
    match hyper::Uri::builder().scheme("http").authority(authority).path_and_query(path).build() {
        Ok(uri) => Some(uri.to_string()),
        Err(_) => None,
    }
}

/// The scopes asked of the user.
pub open spec fn consent_scope() -> Seq<char> {
    "info accounts balance cards transactions direct_debits standing_orders offline_access"@
}

/// The providers offered to the user in each environment.
pub open spec fn consent_providers(env: Environment) -> Seq<char> {
    match env {
        Environment::Sandbox => "uk-cs-mock uk-ob-all uk-oauth-all"@,
        Environment::Live => "uk-ob-all uk-oauth-all"@,
    }
}

/// The query of the consent link.
pub open spec fn consent_query(env: Environment, client_id: Seq<char>, redirect_uri: Seq<char>) -> Seq<(Seq<char>, Seq<char>)> {
    seq![
        ("response_type"@, "code"@),
        ("client_id"@, client_id),
        ("redirect_uri"@, redirect_uri),
        ("scope"@, consent_scope()),
        ("providers"@, consent_providers(env)),
    ]
}

/// The link that sends the user to the authorization server to consent.
pub fn consent_url(env: Environment, client_id: &str, redirect_uri: &str) -> (r: Option<String>)
    ensures
        r matches Some(u) ==> u@ == "https://"@ + auth_host_spec(env) + "/?"@ + form_encoded(
            consent_query(env, client_id@, redirect_uri@),
        ),
        form_encoded(consent_query(env, client_id@, redirect_uri@)).len() + 2 <= MAX_PATH_LEN
            ==> r is Some,
{
    let providers = match env {
        Environment::Sandbox => String::from_str("uk-cs-mock uk-ob-all uk-oauth-all"),
        Environment::Live => String::from_str("uk-ob-all uk-oauth-all"),
    };
    let mut pairs: Vec<(String, String)> = Vec::new();
    pairs.push((String::from_str("response_type"), String::from_str("code")));
    pairs.push((String::from_str("client_id"), String::from_str(client_id)));
    pairs.push((String::from_str("redirect_uri"), String::from_str(redirect_uri)));
    pairs.push((
        String::from_str("scope"),
        String::from_str(
            "info accounts balance cards transactions direct_debits standing_orders offline_access",
        ),
    ));
    pairs.push((String::from_str("providers"), providers));
    proof {
        assert(pair_views(pairs@) =~= consent_query(env, client_id@, redirect_uri@));
    }
    let query = match encode_form(&pairs) {
        Some(q) => q,
        None => return None,
    };
    let mut path = String::from_str("/?");
    path.append(query.as_str());
    proof {
        reveal_strlit("/?");
        let p = path@;
        assert forall|i: int| 0 <= i < p.len() implies p[i] != '#' && uri_char(#[trigger] p[i]) by {
            if i >= 2 {
                assert(p[i] == query@[i - 2]);
                assert(form_char(query@[i - 2]));
            }
        }
    }
    env.auth_url(path.as_str())
}

/// Where the authorization server sends the user back to: the listener's
/// `/start-redirect` path.
pub fn redirect_uri(listen_authority: &str) -> (r: Option<String>)
    ensures
        r matches Some(u) ==> u@ == "http://"@ + listen_authority@ + "/start-redirect"@,
        host_port(listen_authority@) ==> r is Some,
{
    proof {
        reveal_strlit("/start-redirect");
    }
    build_http_uri(listen_authority, "/start-redirect")
}

/// The listener's answer to a callback.
#[derive(Clone, Copy, Debug, PartialEq, Eq, Structural)]
pub struct CallbackReply {
    /// 200 when accepted, 404 for a callback that does not match, 500 when
    /// the code exchange failed.
    pub status: u16,
    /// Whether the listener shuts down.
    pub shut_down: bool,
}

pub open spec fn callback_accepted(expected: Option<Seq<char>>, supplied: Option<Seq<char>>) -> bool {
    match (expected, supplied) {
        (_, None) => false,
        (None, Some(_)) => true,
        (Some(e), Some(s)) => e == s,
    }
}

/// Judges a callback: with an expected consent reference the supplied one
/// must equal it; without one, an authorization code must merely be
/// present. A match is accepted (200, shut down); anything else answers 404
/// and leaves the listener running.
pub fn judge_callback(expected: Option<&str>, supplied: Option<&str>) -> (r: CallbackReply)
    ensures
        r.shut_down == callback_accepted(
            crate::http::opt_view(expected),
            crate::http::opt_view(supplied),
        ),
        r.status == (if r.shut_down { 200u16 } else { 404u16 }),
{
    let accepted = match (expected, supplied) {
        (_, None) => false,
        (None, Some(_)) => true,
        (Some(e), Some(s)) => str_eq(e, s),
    };
    CallbackReply { status: if accepted { 200 } else { 404 }, shut_down: accepted }
}

/// The listener's answer once a matching callback's authorization code has
/// been exchanged: 200 and shut down when the exchange succeeded; otherwise
/// 500, and the listener keeps running so that the user can try again.
pub fn after_exchange(succeeded: bool) -> (r: CallbackReply)
    ensures
        r.shut_down == succeeded,
        r.status == (if succeeded { 200u16 } else { 500u16 }),
{
    CallbackReply { status: if succeeded { 200 } else { 500 }, shut_down: succeeded }
}

/// The token endpoint of the authorization server.
pub fn token_url(env: Environment) -> (r: Option<String>)
    ensures
        r matches Some(u) ==> u@ == "https://"@ + auth_host_spec(env) + "/connect/token"@,
        r is Some,
{
    proof {
        reveal_strlit("/connect/token");
        lemma_host_of(env);
    }
    env.auth_url("/connect/token")
}

} // verus!
