use proxy_cli::actions::{disable, enable, protocol_line, set_port, AppError};
use proxy_cli::config::{Config, ConfigError};
use proxy_cli::proxy::{enable_proxy, ProxyVars};

fn all_set_to(v: &ProxyVars, url: &str) -> bool {
    [&v.http_lower, &v.https_lower, &v.http_upper, &v.https_upper]
        .iter()
        .all(|x| x.as_deref() == Some(url))
}

fn all_clear(v: &ProxyVars) -> bool {
    v.http_lower.is_none() && v.https_lower.is_none() && v.http_upper.is_none() && v.https_upper.is_none()
}

#[test]
fn set_port_then_enable() {
    let mut c = Config::default();
    let mut v = ProxyVars::new();
    assert!(set_port(&mut c, &mut v, Some("8080".to_string())).is_ok());
    assert_eq!(c, Config { enabled: false, port: Some(8080) });
    assert!(all_clear(&v));
    assert!(enable(&mut c, &mut v).is_ok());
    assert_eq!(c, Config { enabled: true, port: Some(8080) });
    assert!(all_set_to(&v, "http://127.0.0.1:8080"));
    assert_eq!(protocol_line(&c), "#SET_PROXY:http://127.0.0.1:8080");
}

#[test]
fn empty_port_input_while_enabled_clears_everything() {
    let mut c = Config { enabled: true, port: Some(8080) };
    let mut v = ProxyVars::new();
    enable_proxy(&mut v, 8080);
    assert!(set_port(&mut c, &mut v, None).is_ok());
    assert_eq!(c, Config { enabled: false, port: None });
    assert!(all_clear(&v));
    assert_eq!(protocol_line(&c), "#CLEAR_PROXY");
}

#[test]
fn empty_port_input_while_disabled_keeps_variables() {
    let mut c = Config { enabled: false, port: Some(8080) };
    let mut v = ProxyVars::new();
    enable_proxy(&mut v, 1234);
    assert!(set_port(&mut c, &mut v, None).is_ok());
    assert_eq!(c, Config { enabled: false, port: None });
    assert!(all_set_to(&v, "http://127.0.0.1:1234"));
}

#[test]
fn new_port_while_enabled_moves_the_proxy() {
    let mut c = Config { enabled: true, port: Some(8080) };
    let mut v = ProxyVars::new();
    enable_proxy(&mut v, 8080);
    assert!(set_port(&mut c, &mut v, Some(" 9090 ".to_string())).is_ok());
    assert_eq!(c, Config { enabled: true, port: Some(9090) });
    assert!(all_set_to(&v, "http://127.0.0.1:9090"));
}

#[test]
fn port_text_not_a_number() {
    let mut c = Config { enabled: false, port: Some(80) };
    let mut v = ProxyVars::new();
    match set_port(&mut c, &mut v, Some("abc".to_string())) {
        Err(AppError::InvalidInput(m)) => assert_eq!(m, "无效的端口: abc (必须是数字)"),
        _ => panic!("expected an invalid input"),
    }
    assert_eq!(c, Config { enabled: false, port: Some(80) });
}

#[test]
fn port_text_out_of_range() {
    let mut c = Config::default();
    let mut v = ProxyVars::new();
    for (input, n) in [("0", 0u32), ("70000", 70000)] {
        match set_port(&mut c, &mut v, Some(input.to_string())) {
            Err(AppError::InvalidInput(m)) => {
                assert_eq!(m, format!("Invalid port: {} (must be 1-65535)", n))
            }
            _ => panic!("expected an invalid input"),
        }
    }
    assert_eq!(c, Config::default());
}

#[test]
fn enable_without_port_fails_and_changes_nothing() {
    let mut c = Config::default();
    let mut v = ProxyVars::new();
    match enable(&mut c, &mut v) {
        Err(AppError::InvalidInput(m)) => assert_eq!(m, "请先设置有效的端口！"),
        _ => panic!("expected an invalid input"),
    }
    assert_eq!(c, Config::default());
    assert!(all_clear(&v));
}

#[test]
fn disable_keeps_port() {
    let mut c = Config { enabled: true, port: Some(8080) };
    let mut v = ProxyVars::new();
    enable_proxy(&mut v, 8080);
    disable(&mut c, &mut v);
    assert_eq!(c, Config { enabled: false, port: Some(8080) });
    assert!(all_clear(&v));
}

#[test]
fn error_messages() {
    assert_eq!(AppError::InvalidInput("x".to_string()).message(), "Invalid input: x");
    assert_eq!(AppError::Ui("tty".to_string()).message(), "UI error: tty");
    assert_eq!(
        AppError::Config(ConfigError::Io("full".to_string())).message(),
        "Config error: IO error: full"
    );
}

#[test]
fn blank_port_text_while_enabled_clears_everything() {
    let mut c = Config { enabled: true, port: Some(8080) };
    let mut v = ProxyVars::new();
    enable_proxy(&mut v, 8080);
    assert!(set_port(&mut c, &mut v, Some("  ".to_string())).is_ok());
    assert_eq!(c, Config { enabled: false, port: None });
    assert!(all_clear(&v));
}

#[test]
fn empty_port_text_while_disabled_clears_port_only() {
    let mut c = Config { enabled: false, port: Some(8080) };
    let mut v = ProxyVars::new();
    enable_proxy(&mut v, 1234);
    assert!(set_port(&mut c, &mut v, Some(String::new())).is_ok());
    assert_eq!(c, Config { enabled: false, port: None });
    assert!(all_set_to(&v, "http://127.0.0.1:1234"));
}
