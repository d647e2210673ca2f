use moonwave::curl_hook::{decide_setopt, SetoptAction, CURLOPT_SSL_VERIFYPEER, CURLOPT_URL};
use moonwave::partyhub::partyhub_graphql_url;
use moonwave::url::Url;

const BACKEND: &str = "http://192.168.1.69:8080";

fn split(u: &str) -> (String, String) {
    let p = Url::parse_url(u);
    (p.host, p.path_and_query)
}

#[test]
fn parse_url_with_scheme_port_and_query() {
    assert_eq!(
        split("https://ol.epicgames.com:443/account/api/oauth/token?x=1"),
        ("https://ol.epicgames.com:443".to_string(), "/account/api/oauth/token?x=1".to_string())
    );
}

#[test]
fn parse_url_without_path_gets_slash() {
    assert_eq!(split("http://a.example.com"), ("http://a.example.com".to_string(), "/".to_string()));
}

#[test]
fn parse_url_without_scheme() {
    assert_eq!(split("ol.epicgames.com/x/y"), ("ol.epicgames.com".to_string(), "/x/y".to_string()));
    assert_eq!(split("abc"), ("abc".to_string(), "/".to_string()));
}

#[test]
fn parse_url_empty() {
    assert_eq!(split(""), (String::new(), String::new()));
}

#[test]
fn parse_url_slash_right_after_scheme() {
    assert_eq!(split("http:///x"), ("http://".to_string(), "/x".to_string()));
}

#[test]
fn parse_url_uses_first_scheme_separator() {
    assert_eq!(
        split("https://a.com/cb?next=http://b.com/z"),
        ("https://a.com".to_string(), "/cb?next=http://b.com/z".to_string())
    );
}

#[test]
fn parse_url_non_ascii() {
    assert_eq!(split("http://ü.de/ä?ö"), ("http://ü.de".to_string(), "/ä?ö".to_string()));
}

#[test]
fn create_url_concatenates() {
    assert_eq!(Url::create_url("http://h:1", "/p?q"), "http://h:1/p?q");
    assert_eq!(Url::create_url("", ""), "");
}

#[test]
fn parse_then_create_roundtrip() {
    for u in ["https://ol.epicgames.com/a/b?c", "x.y/z", ""] {
        let p = Url::parse_url(u);
        assert_eq!(Url::create_url(&p.host, &p.path_and_query), u);
    }
    let p = Url::parse_url("https://ol.epicgames.com");
    assert_eq!(Url::create_url(&p.host, &p.path_and_query), "https://ol.epicgames.com/");
}

#[test]
fn should_redirect_epic_hosts() {
    assert!(Url::should_redirect("https://account-public-service-prod.ol.epicgames.com"));
    assert!(Url::should_redirect("https://ol.epicgames.com:443"));
    assert!(Url::should_redirect("http://game-social.epicgames.com"));
    assert!(Url::should_redirect("ol.epicgames.net"));
    assert!(Url::should_redirect("https://on.epicgames.com"));
    assert!(Url::should_redirect("https://ak.epicgames.com"));
    assert!(Url::should_redirect("https://api.epicgames.dev:8443"));
}

#[test]
fn should_not_redirect_other_hosts() {
    assert!(!Url::should_redirect("https://example.com"));
    assert!(!Url::should_redirect("https://epicgames.dev.example.com"));
    assert!(!Url::should_redirect("https://www.epicgames.com"));
    assert!(!Url::should_redirect(""));
    assert!(!Url::should_redirect("http://http://ol.epicgames.com"));
}

#[test]
fn scheme_and_port_do_not_change_the_decision() {
    for h in ["ol.epicgames.com", "example.com", "epicgames.dev"] {
        let expected = Url::should_redirect(h);
        assert_eq!(Url::should_redirect(&format!("http://{}", h)), expected);
        assert_eq!(Url::should_redirect(&format!("https://{}", h)), expected);
        assert_eq!(Url::should_redirect(&format!("https://{}:443", h)), expected);
        assert_eq!(Url::should_redirect(&format!("http://{}:80", h)), expected);
    }
}

#[test]
fn setopt_redirects_epic_url() {
    match decide_setopt(
        CURLOPT_URL,
        Some("https://account-public-service-prod.ol.epicgames.com/account/api/oauth/token"),
        BACKEND,
        false,
    ) {
        SetoptAction::Redirect(u) => {
            assert_eq!(u, "http://192.168.1.69:8080/account/api/oauth/token")
        }
        _ => panic!("expected a redirect"),
    }
}

#[test]
fn setopt_redirect_keeps_path_and_query() {
    let incoming = "https://fortnite-public-service-live.ol.epicgames.com:443/fortnite/api/v2/versioncheck?x=1";
    match decide_setopt(CURLOPT_URL, Some(incoming), BACKEND, false) {
        SetoptAction::Redirect(u) => {
            let again = Url::parse_url(&u);
            assert_eq!(again.host, BACKEND);
            assert_eq!(again.path_and_query, Url::parse_url(incoming).path_and_query);
        }
        _ => panic!("expected a redirect"),
    }
}

#[test]
fn setopt_redirects_host_only_url_to_root() {
    match decide_setopt(CURLOPT_URL, Some("https://ol.epicgames.com"), BACKEND, false) {
        SetoptAction::Redirect(u) => assert_eq!(u, "http://192.168.1.69:8080/"),
        _ => panic!("expected a redirect"),
    }
}

#[test]
fn setopt_passes_other_urls() {
    assert!(matches!(
        decide_setopt(CURLOPT_URL, Some("https://example.com/a"), BACKEND, true),
        SetoptAction::PassThrough
    ));
    assert!(matches!(decide_setopt(CURLOPT_URL, None, BACKEND, true), SetoptAction::PassThrough));
}

#[test]
fn setopt_ssl_bypass() {
    assert!(matches!(
        decide_setopt(CURLOPT_SSL_VERIFYPEER, None, BACKEND, true),
        SetoptAction::DisablePeerVerification
    ));
    assert!(matches!(
        decide_setopt(CURLOPT_SSL_VERIFYPEER, Some("https://ol.epicgames.com/x"), BACKEND, false),
        SetoptAction::PassThrough
    ));
}

#[test]
fn setopt_other_options_pass() {
    assert!(matches!(
        decide_setopt(10015, Some("https://ol.epicgames.com/x"), BACKEND, true),
        SetoptAction::PassThrough
    ));
}

#[test]
fn partyhub_graphql_endpoint() {
    assert_eq!(partyhub_graphql_url(BACKEND), "http://192.168.1.69:8080/partyhub/graphql");
}

#[test]
fn redirected_url_is_not_redirected_again() {
    match decide_setopt(CURLOPT_URL, Some("https://ol.epicgames.com/a?b=c"), BACKEND, false) {
        SetoptAction::Redirect(u) => {
            assert!(matches!(decide_setopt(CURLOPT_URL, Some(&u), BACKEND, false), SetoptAction::PassThrough));
        }
        _ => panic!("expected a redirect"),
    }
}
