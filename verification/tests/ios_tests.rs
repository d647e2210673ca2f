use moonwave::cfnetwork::graphql_redirect;
use moonwave::protocol::can_init_with_url;
use moonwave::wkwebview::{decide_navigation, NavigationDecision, NavigationRequest, DelegateImps};

const LOGIN: &str = "http://192.168.1.69:5000/login";
const REGISTER: &str = "http://192.168.1.69:5000/register";

fn req(main: bool, has_url: bool, scheme: Option<&str>, host: Option<&str>, abs: Option<&str>) -> NavigationRequest {
    NavigationRequest {
        is_main_frame: main,
        has_url,
        scheme: scheme.map(|s| s.to_string()),
        host: host.map(|s| s.to_string()),
        absolute_url: abs.map(|s| s.to_string()),
    }
}

fn decide(r: NavigationRequest) -> NavigationDecision {
    decide_navigation(&r, LOGIN, REGISTER)
}

#[test]
fn graphql_requests_are_rewritten() {
    assert_eq!(
        graphql_redirect("https://graphql.epicgames.com/graphql?x=1", "http://b:1", Some("/graphql"), Some("x=1")),
        Some("http://b:1/graphql?x=1".to_string())
    );
    assert_eq!(
        graphql_redirect("https://graphql.epicgames.com", "http://b:1", None, None),
        Some("http://b:1".to_string())
    );
    assert_eq!(
        graphql_redirect("https://graphql.epicgames.com/q", "http://b:1", Some("/q"), Some("")),
        Some("http://b:1/q?".to_string())
    );
    assert_eq!(graphql_redirect("https://example.com/graphql", "http://b:1", Some("/graphql"), None), None);
}

#[test]
fn protocol_takes_epic_requests() {
    assert!(can_init_with_url("https://account-public-service-prod.ol.epicgames.com/account"));
    assert!(can_init_with_url("https://x.example/?u=epicgames.dev"));
    assert!(!can_init_with_url("https://www.epicgames.com/fortnite"));
    assert!(!can_init_with_url(""));
}

#[test]
fn navigation_sub_frames_load() {
    assert!(matches!(decide(req(false, false, None, None, None)), NavigationDecision::Allow));
}

#[test]
fn navigation_without_url_goes_to_delegate() {
    assert!(matches!(decide(req(true, false, None, None, None)), NavigationDecision::CallDelegate));
}

#[test]
fn navigation_game_callback_goes_to_delegate() {
    let r = req(true, true, Some("com.epicgames.fortnite"), Some("authorize"), Some("com.epicgames.fortnite://authorize?code=1"));
    assert!(matches!(decide(r), NavigationDecision::CallDelegate));
    let r = req(true, true, Some("com.epicgames.fortnite"), Some("other"), Some("com.epicgames.fortnite://other"));
    assert!(matches!(decide(r), NavigationDecision::OpenExternally));
}

#[test]
fn navigation_other_schemes_leave_the_app() {
    let r = req(true, true, Some("mailto"), None, Some("mailto:a@b.c"));
    assert!(matches!(decide(r), NavigationDecision::OpenExternally));
}

#[test]
fn navigation_login_and_register_are_replaced() {
    match decide(req(true, true, Some("https"), Some("www.epicgames.com"), Some("https://www.epicgames.com/id/login?lang=en"))) {
        NavigationDecision::LoadInstead(u) => assert_eq!(u, LOGIN),
        _ => panic!("expected the login page"),
    }
    match decide(req(true, true, Some("https"), Some("www.epicgames.com"), Some("https://www.epicgames.com/id/register"))) {
        NavigationDecision::LoadInstead(u) => assert_eq!(u, REGISTER),
        _ => panic!("expected the register page"),
    }
    match decide(req(true, true, None, None, Some("https://www.epicgames.com/id/register/id/login"))) {
        NavigationDecision::LoadInstead(u) => assert_eq!(u, LOGIN),
        _ => panic!("expected the login page"),
    }
}

#[test]
fn navigation_other_pages_load() {
    let r = req(true, true, Some("http"), Some("example.com"), Some("http://example.com/"));
    assert!(matches!(decide(r), NavigationDecision::Allow));
    let r = req(true, true, Some("https"), Some("example.com"), None);
    assert!(matches!(decide(r), NavigationDecision::CallDelegate));
}

#[test]
fn original_imps_first_record_wins() {
    let mut imps = DelegateImps::new();
    assert!(!imps.is_hooked(7));
    assert_eq!(imps.delegate_imp(7), None);
    assert!(imps.record(7, 100));
    assert!(!imps.record(7, 200));
    assert!(imps.is_hooked(7));
    assert_eq!(imps.delegate_imp(7), Some(100));
    assert!(imps.record(8, 300));
    assert_eq!(imps.delegate_imp(8), Some(300));
    assert_eq!(imps.delegate_imp(7), Some(100));
}
