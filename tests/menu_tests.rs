use proxy_cli::config::{Config, ConfigError};
use proxy_cli::menu::{commit_message, Controller, Key, MenuItem, MessageType, Outcome, Step};
use proxy_cli::proxy::ProxyVars;

fn controller(config: Config) -> Controller {
    Controller::new(config, ProxyVars::new())
}

fn vars_clear(c: &Controller) -> bool {
    c.vars.http_lower.is_none() && c.vars.https_lower.is_none() && c.vars.http_upper.is_none() && c.vars.https_upper.is_none()
}

#[test]
fn items_in_order() {
    let items = MenuItem::all();
    assert_eq!(items, vec![MenuItem::EnableProxy, MenuItem::DisableProxy, MenuItem::SetPort, MenuItem::Exit]);
    assert_eq!(MenuItem::EnableProxy.as_str(), "启用代理");
    assert_eq!(MenuItem::DisableProxy.as_str(), "禁用代理");
    assert_eq!(MenuItem::SetPort.as_str(), "设置端口");
    assert_eq!(MenuItem::Exit.as_str(), "退出");
}

#[test]
fn selection_stays_in_range() {
    let mut c = controller(Config::default());
    for _ in 0..10 {
        assert!(matches!(c.on_key(Key::Down), Step::Redraw));
        assert!(c.selected <= 3);
    }
    assert_eq!(c.selected, 3);
    for _ in 0..10 {
        c.on_key(Key::Up);
    }
    assert_eq!(c.selected, 0);
    c.on_key(Key::Down);
    c.on_key(Key::Down);
    c.on_key(Key::Up);
    assert_eq!(c.selected, 1);
}

#[test]
fn enable_without_port_warns_only() {
    let mut c = controller(Config::default());
    match c.on_key(Key::Enter) {
        Step::Show(m) => {
            assert_eq!(m.kind, MessageType::Warning);
            assert_eq!(m.text, "请先设置有效的端口！");
            assert_eq!(m.pause_ms, 1000);
        }
        _ => panic!("expected a warning"),
    }
    assert_eq!(c.config, Config::default());
    assert!(vars_clear(&c));
}

#[test]
fn enable_with_port_commits() {
    let mut c = controller(Config { enabled: false, port: Some(8080) });
    assert!(matches!(c.on_key(Key::Enter), Step::Commit(Outcome::Enabled(8080))));
    assert_eq!(c.config, Config { enabled: true, port: Some(8080) });
    assert_eq!(c.vars.https_upper.as_deref(), Some("http://127.0.0.1:8080"));
}

#[test]
fn disable_entry_commits() {
    let mut c = controller(Config { enabled: true, port: Some(8080) });
    c.on_key(Key::Enter);
    c.on_key(Key::Down);
    assert!(matches!(c.on_key(Key::Enter), Step::Commit(Outcome::Disabled)));
    assert_eq!(c.config, Config { enabled: false, port: Some(8080) });
    assert!(vars_clear(&c));
}

#[test]
fn set_port_entry_asks_then_commits() {
    let mut c = controller(Config::default());
    c.on_key(Key::Down);
    c.on_key(Key::Down);
    assert!(matches!(c.on_key(Key::Enter), Step::AskPort));
    match c.port_entered(Some("8080".to_string())) {
        Step::Commit(Outcome::PortChanged { before: None, after: Some(8080) }) => {}
        _ => panic!("expected a commit"),
    }
    assert_eq!(c.config.port, Some(8080));
}

#[test]
fn bad_port_entry_shows_error() {
    let mut c = controller(Config::default());
    match c.port_entered(Some("abc".to_string())) {
        Step::Show(m) => {
            assert_eq!(m.kind, MessageType::Error);
            assert_eq!(m.text, "错误: Invalid input: 无效的端口: abc (必须是数字)");
            assert_eq!(m.pause_ms, 1500);
        }
        _ => panic!("expected an error"),
    }
    assert_eq!(c.config, Config::default());
}

#[test]
fn quitting_keys() {
    for k in [Key::Esc, Key::Char('q'), Key::Char('Q')] {
        let mut c = controller(Config::default());
        assert!(matches!(c.on_key(k), Step::Exit));
    }
    let mut c = controller(Config::default());
    for _ in 0..3 {
        c.on_key(Key::Down);
    }
    assert!(matches!(c.on_key(Key::Enter), Step::Exit));
}

#[test]
fn other_keys_do_nothing() {
    let mut c = controller(Config { enabled: false, port: Some(1) });
    assert!(matches!(c.on_key(Key::Char('x')), Step::Redraw));
    assert!(matches!(c.on_key(Key::Other), Step::Redraw));
    assert_eq!(c.selected, 0);
    assert_eq!(c.config, Config { enabled: false, port: Some(1) });
}

#[test]
fn commit_messages() {
    let m = commit_message(Outcome::Enabled(8080), Ok(())).unwrap();
    assert_eq!((m.kind, m.text.as_str(), m.pause_ms), (MessageType::Success, "代理已启用 (端口: 8080)", 800));
    let m = commit_message(Outcome::Disabled, Ok(())).unwrap();
    assert_eq!((m.kind, m.text.as_str()), (MessageType::Success, "代理已禁用"));
    let m = commit_message(Outcome::PortChanged { before: Some(1), after: None }, Ok(())).unwrap();
    assert_eq!((m.kind, m.text.as_str()), (MessageType::Warning, "端口已清除"));
    let m = commit_message(Outcome::PortChanged { before: Some(1), after: Some(2) }, Ok(())).unwrap();
    assert_eq!((m.kind, m.text.as_str()), (MessageType::Success, "端口已设置为: 2"));
    assert!(commit_message(Outcome::PortChanged { before: Some(2), after: Some(2) }, Ok(())).is_none());
}

#[test]
fn failed_save_reports_error() {
    let m = commit_message(Outcome::Enabled(8080), Err(ConfigError::Io("read-only".to_string()))).unwrap();
    assert_eq!(m.kind, MessageType::Error);
    assert_eq!(m.text, "错误: Config error: IO error: read-only");
    assert_eq!(m.pause_ms, 1500);
}

#[test]
fn blank_port_entry_clears() {
    let mut c = controller(Config { enabled: false, port: Some(8080) });
    match c.port_entered(Some(" \t".to_string())) {
        Step::Commit(Outcome::PortChanged { before: Some(8080), after: None }) => {}
        _ => panic!("expected the port to be cleared"),
    }
    assert_eq!(c.config, Config { enabled: false, port: None });
}
