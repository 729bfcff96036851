use moss_git::config::encode_query;
use moss_git::redirect::{capture_redirect, find_param, query, request_target, validate_redirect_pairs};
use moss_git::{Credential, FlowError, OAuth, Phase, Session};

fn github() -> OAuth {
    OAuth::new(
        "https://github.com/login/oauth/authorize",
        "https://github.com/login/oauth/access_token",
        "client-123",
        "SECRET-REDACTED",
        "51789",
    )
}

fn pairs(items: &[(&str, &str)]) -> Vec<(String, String)> {
    items.iter().map(|(k, v)| (k.to_string(), v.to_string())).collect()
}

#[test]
fn new_keeps_every_field() {
    let c = github();
    assert_eq!(c.auth_url(), "https://github.com/login/oauth/authorize");
    assert_eq!(c.token_url(), "https://github.com/login/oauth/access_token");
    assert_eq!(c.client_id(), "client-123");
    assert_eq!(c.client_secret(), "SECRET-REDACTED");
    assert_eq!(c.callback_port(), "51789");
    assert_eq!(c.redirect_uri(), "http://localhost:51789");
}

#[test]
fn authorization_url_exact() {
    let c = github();
    let url = c.authorization_url(&"st4te".to_string());
    assert_eq!(
        url,
        "https://github.com/login/oauth/authorize?response_type=code&client_id=client-123\
         &redirect_uri=http%3A%2F%2Flocalhost%3A51789&scope=repo&state=st4te"
    );
}

#[test]
fn authorization_url_has_one_state() {
    let c = github();
    let url = c.authorization_url(&"abc".to_string());
    assert_eq!(url.matches("state=").count(), 1);
    assert!(!url.contains("SECRET"));
    let params = c.authorization_params(&"abc".to_string());
    assert_eq!(params.iter().filter(|(k, _)| k == "state").count(), 1);
}

#[test]
fn encode_query_escapes_components() {
    let q = encode_query(&pairs(&[("a b", "c&d"), ("x", "é/*-._")]));
    assert_eq!(q, "a+b=c%26d&x=%C3%A9%2F*-._");
    assert_eq!(encode_query(&Vec::new()), "");
}

#[test]
fn validate_accepts_urls() {
    assert_eq!(github().validate(), Ok(()));
}

#[test]
fn validate_rejects_bad_endpoint() {
    let c = OAuth::new("not a url", "https://x.test/token", "id", "s", "51789");
    assert_eq!(c.validate(), Err(FlowError::ConfigInvalid));
    assert!(Session::start(&c).is_err());
}

#[test]
fn validate_rejects_bad_port() {
    let c = OAuth::new("https://x.test/a", "https://x.test/token", "id", "s", "port");
    assert_eq!(c.validate(), Err(FlowError::ConfigInvalid));
}

#[test]
fn request_target_reads_get_line() {
    assert_eq!(
        request_target("GET /?code=abc123&state=s HTTP/1.1\r\n"),
        Some("/?code=abc123&state=s".to_string())
    );
    assert_eq!(request_target("GET / HTTP/1.0"), Some("/".to_string()));
}

#[test]
fn request_target_rejects_malformed() {
    assert_eq!(request_target(""), None);
    assert_eq!(request_target("POST /?code=a HTTP/1.1\r\n"), None);
    assert_eq!(request_target("GET /?code=a HTTP/2\r\n"), None);
    assert_eq!(request_target("GET /a b HTTP/1.1\r\n"), None);
    assert_eq!(request_target("GET  HTTP/1.1\r\n"), None);
}

#[test]
fn query_strips_fragment() {
    assert_eq!(query("/?code=a&state=b#frag"), "code=a&state=b");
    assert_eq!(query("/path"), "");
    assert_eq!(query("/?"), "");
}

#[test]
fn find_param_takes_first() {
    let p = pairs(&[("code", "one"), ("code", "two")]);
    assert_eq!(find_param(&p, &"code".to_string()), Some("one".to_string()));
    assert_eq!(find_param(&p, &"state".to_string()), None);
}

#[test]
fn validate_pairs_outcomes() {
    let issued = "s1".to_string();
    assert_eq!(
        validate_redirect_pairs(&pairs(&[("state", "s1"), ("code", "c")]), &issued),
        Ok("c".to_string())
    );
    assert_eq!(
        validate_redirect_pairs(&pairs(&[("state", "s2"), ("code", "c")]), &issued),
        Err(FlowError::CsrfMismatch)
    );
    assert_eq!(
        validate_redirect_pairs(&pairs(&[("state", "s1")]), &issued),
        Err(FlowError::MissingParameter)
    );
    assert_eq!(
        validate_redirect_pairs(&pairs(&[("code", "c")]), &issued),
        Err(FlowError::MissingParameter)
    );
}

#[test]
fn capture_redirect_decodes_values() {
    let issued = "a b".to_string();
    assert_eq!(
        capture_redirect("GET /?code=x%2Fy&state=a+b HTTP/1.1\r\n", &issued),
        Ok("x/y".to_string())
    );
}

#[test]
fn capture_redirect_errors() {
    let issued = "s".to_string();
    assert_eq!(capture_redirect("garbage\r\n", &issued), Err(FlowError::MalformedRedirect));
    assert_eq!(
        capture_redirect("GET /?code=abc HTTP/1.1\r\n", &issued),
        Err(FlowError::MissingParameter)
    );
    assert_eq!(
        capture_redirect("GET /?state=s HTTP/1.1\r\n", &issued),
        Err(FlowError::MissingParameter)
    );
    assert_eq!(
        capture_redirect("GET /?code=abc&state=t HTTP/1.1\r\n", &issued),
        Err(FlowError::CsrfMismatch)
    );
}

#[test]
fn end_to_end_success() {
    let c = github();
    let (mut s, url) = Session::start(&c).unwrap();
    assert_eq!(s.phase(), Phase::AwaitingRedirect);
    let issued = s.csrf_state().clone();
    assert!(!issued.is_empty());
    assert!(url.ends_with(&format!("&state={}", issued)));
    let line = format!("GET /?code=abc123&state={} HTTP/1.1\r\n", issued);
    let code = s.redirect_received(&line).unwrap();
    assert_eq!(code, "abc123");
    assert_eq!(s.phase(), Phase::Exchanging);
    let cred = s.token_received(Some("tok_xyz".to_string())).unwrap();
    assert_eq!(s.phase(), Phase::Completed);
    let (user, secret) = cred.resolve("https://github.com/a/b.git", None, 0);
    assert_eq!(user, "oauth2");
    assert_eq!(secret, "tok_xyz");
    let (user, secret) = cred.resolve("anything", Some("me"), 7);
    assert_eq!((user.as_str(), secret.as_str()), ("oauth2", "tok_xyz"));
}

#[test]
fn end_to_end_wrong_state() {
    let c = github();
    let (mut s, _url) = Session::start(&c).unwrap();
    let r = s.redirect_received("GET /?code=abc123&state=wrong HTTP/1.1\r\n");
    assert_eq!(r, Err(FlowError::CsrfMismatch));
    assert_eq!(s.phase(), Phase::Failed);
}

#[test]
fn missing_code_fails_session() {
    let (mut s, _url) = Session::start_with_state(&github(), "st".to_string()).unwrap();
    assert_eq!(
        s.redirect_received("GET /?state=st HTTP/1.1\r\n"),
        Err(FlowError::MissingParameter)
    );
    assert_eq!(s.phase(), Phase::Failed);
}

#[test]
fn states_differ_between_sessions() {
    let (a, _) = Session::start(&github()).unwrap();
    let (b, _) = Session::start(&github()).unwrap();
    assert_ne!(a.csrf_state(), b.csrf_state());
}

#[test]
fn listener_failure_is_port_unavailable() {
    let (mut s, _) = Session::start_with_state(&github(), "st".to_string()).unwrap();
    assert_eq!(s.listener_failed(), FlowError::PortUnavailable);
    assert_eq!(s.phase(), Phase::Failed);
}

#[test]
fn token_failure_gives_no_credential() {
    let (mut s, _) = Session::start_with_state(&github(), "st".to_string()).unwrap();
    s.redirect_received("GET /?code=c&state=st HTTP/1.1\r\n").unwrap();
    assert_eq!(s.token_received(None).err(), Some(FlowError::TokenExchangeFailed));
    assert_eq!(s.phase(), Phase::Failed);
}

#[test]
fn credential_for_token() {
    let cred = Credential::for_token("t".to_string());
    assert_eq!(cred.resolve("u", None, 1), ("oauth2".to_string(), "t".to_string()));
}
