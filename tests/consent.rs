use tl_scraper::consent::{after_exchange, consent_url, judge_callback, redirect_uri, token_url, CallbackReply};
use tl_scraper::Environment;

#[test]
fn consent_link_for_the_sandbox() {
    let redirect = redirect_uri("127.0.0.1:3000").expect("uri");
    assert_eq!(redirect, "http://127.0.0.1:3000/start-redirect");
    assert_eq!(
        consent_url(Environment::Sandbox, "cid", &redirect),
        Some(
            "https://auth.truelayer-sandbox.com/?response_type=code&client_id=cid\
             &redirect_uri=http%3A%2F%2F127.0.0.1%3A3000%2Fstart-redirect\
             &scope=info+accounts+balance+cards+transactions+direct_debits+standing_orders+offline_access\
             &providers=uk-cs-mock+uk-ob-all+uk-oauth-all"
                .to_string()
        )
    );
}

#[test]
fn consent_link_live_providers() {
    let url = consent_url(Environment::Live, "c#1", "http://h/start-redirect").expect("url");
    assert!(url.starts_with("https://auth.truelayer.com/?response_type=code&client_id=c%231&"));
    assert!(url.ends_with("&providers=uk-ob-all+uk-oauth-all"));
}

#[test]
fn callbacks_are_judged() {
    let accept = CallbackReply { status: 200, shut_down: true };
    let reject = CallbackReply { status: 404, shut_down: false };
    assert_eq!(judge_callback(Some("ref-1"), Some("ref-1")), accept);
    assert_eq!(judge_callback(Some("ref-1"), Some("ref-2")), reject);
    assert_eq!(judge_callback(Some("ref-1"), None), reject);
    assert_eq!(judge_callback(None, Some("code")), accept);
    assert_eq!(judge_callback(None, None), reject);
}

#[test]
fn token_endpoint() {
    assert_eq!(token_url(Environment::Live), Some("https://auth.truelayer.com/connect/token".to_string()));
}

#[test]
fn exchange_outcome_decides_shutdown() {
    assert_eq!(after_exchange(true), CallbackReply { status: 200, shut_down: true });
    assert_eq!(after_exchange(false), CallbackReply { status: 500, shut_down: false });
}

#[test]
fn redirect_uri_refused_for_a_bad_authority() {
    assert_eq!(redirect_uri("localhost:80:90"), None);
    assert_eq!(redirect_uri("localhost"), Some("http://localhost/start-redirect".to_string()));
}
