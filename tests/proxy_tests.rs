use proxy_cli::proxy::{disable_proxy, enable_proxy, get_current_proxy, proxy_url, snapshot, ProxyVars};

fn all_four(v: &ProxyVars) -> [Option<String>; 4] {
    [v.http_lower.clone(), v.https_lower.clone(), v.http_upper.clone(), v.https_upper.clone()]
}

#[test]
fn url_of_port() {
    assert_eq!(proxy_url(8080), "http://127.0.0.1:8080");
    assert_eq!(proxy_url(1), "http://127.0.0.1:1");
}

#[test]
fn enable_then_snapshot() {
    let mut v = ProxyVars::new();
    enable_proxy(&mut v, 7890);
    let s = snapshot(&v);
    assert_eq!(s.http.as_deref(), Some("http://127.0.0.1:7890"));
    assert_eq!(s.https.as_deref(), Some("http://127.0.0.1:7890"));
    assert!(s.is_active());
}

#[test]
fn disable_then_snapshot() {
    let mut v = ProxyVars::new();
    enable_proxy(&mut v, 7890);
    disable_proxy(&mut v);
    let s = snapshot(&v);
    assert_eq!(s.http, None);
    assert_eq!(s.https, None);
    assert!(!s.is_active());
}

#[test]
fn enable_disable_enable_round_trip() {
    let mut once = ProxyVars::new();
    enable_proxy(&mut once, 3128);
    let mut thrice = ProxyVars::new();
    enable_proxy(&mut thrice, 3128);
    disable_proxy(&mut thrice);
    enable_proxy(&mut thrice, 3128);
    assert_eq!(all_four(&once), all_four(&thrice));
}

#[test]
fn lowercase_takes_precedence_per_scheme() {
    let v = ProxyVars {
        http_lower: Some("http://lower".to_string()),
        https_lower: None,
        http_upper: Some("http://upper".to_string()),
        https_upper: Some("http://UPPER-S".to_string()),
    };
    let s = snapshot(&v);
    assert_eq!(s.http.as_deref(), Some("http://lower"));
    assert_eq!(s.https.as_deref(), Some("http://UPPER-S"));
    let (active, http) = get_current_proxy(&v);
    assert!(active);
    assert_eq!(http.as_deref(), Some("http://lower"));
}

#[test]
fn only_https_counts_as_active() {
    let v = ProxyVars { http_lower: None, https_lower: Some("x".to_string()), http_upper: None, https_upper: None };
    let (active, http) = get_current_proxy(&v);
    assert!(active);
    assert_eq!(http, None);
}
