//! The three things a user can do to the session: enable the proxy, disable
//! it, and set or clear the port. Each changes the configuration and the proxy
//! variables together; the caller then writes the configuration to disk.

use vstd::prelude::*;
use vstd::string::*;
use crate::config::{Config, ConfigError, config_error_text, port_in_range, validate_port};
use crate::proxy::{
    ProxyVars, VarsView, after_disable, after_enable, disable_proxy, enable_proxy, opt_text, proxy_url, proxy_url_text,
};
use crate::text::{parse_u32, parsed_u32, trim, trimmed};

verus! {

/// Why an action could not be carried out.
pub enum AppError {
    Config(ConfigError),
    Ui(String),
    InvalidInput(String),
}

/// What an `AppError` says to the user.
pub open spec fn app_error_text(e: AppError) -> Seq<char> {
    match e {
        AppError::Config(c) => "Config error: "@ + config_error_text(c),
        AppError::Ui(m) => "UI error: "@ + m@,
        AppError::InvalidInput(m) => "Invalid input: "@ + m@,
    }
}

impl AppError {
    /// Describes the error.
    pub fn message(&self) -> (r: String)
        ensures
            r@ == app_error_text(*self),
    {
        match self {
            AppError::Config(c) => {
                let inner = c.message();
                let mut t = String::from_str("Config error: ");
                t.append(inner.as_str());
                t
            },
            AppError::Ui(m) => {
                let mut t = String::from_str("UI error: ");
                t.append(m.as_str());
                t
            },
            AppError::InvalidInput(m) => {
                let mut t = String::from_str("Invalid input: ");
                t.append(m.as_str());
                t
            },
        }
    }
}

/// The complaint when enabling without a port.
pub open spec fn no_port_text() -> Seq<char> {
    "请先设置有效的端口！"@
}

/// The complaint when the port text is not a number.
pub open spec fn not_a_number_text(input: Seq<char>) -> Seq<char> {
    "无效的端口: "@ + input + " (必须是数字)"@
}

/// Enables the proxy on the stored port. Without a port nothing changes.
pub fn enable(config: &mut Config, vars: &mut ProxyVars) -> (r: Result<(), AppError>)
    ensures
        old(config).port is None ==> {
            &&& r matches Err(AppError::InvalidInput(m)) && m@ == no_port_text()
            &&& *final(config) == *old(config)
            &&& final(vars)@ == old(vars)@
        },
        old(config).port matches Some(p) ==> {
            &&& r is Ok
            &&& *final(config) == (Config { enabled: true, port: Some(p) })
            &&& final(vars)@ == after_enable(old(vars)@, p)
        },
{
    match config.port {
        Some(p) => {
            enable_proxy(vars, p);
            config.enabled = true;
            Ok(())
        },
        None => Err(AppError::InvalidInput(String::from_str("请先设置有效的端口！"))),
    }
}

/// Disables the proxy; the port stays.
pub fn disable(config: &mut Config, vars: &mut ProxyVars)
    ensures
        *final(config) == (Config { enabled: false, port: old(config).port }),
        final(vars)@ == after_disable(old(vars)@),
{
    disable_proxy(vars);
    config.enabled = false;
}

/// Clears the port, and disables an enabled proxy.
fn clear_port(config: &mut Config, vars: &mut ProxyVars)
    ensures
        *final(config) == (Config { enabled: false, port: None }),
        final(vars)@ == if old(config).enabled {
            after_disable(old(vars)@)
        } else {
            old(vars)@
        },
{
    config.port = None;
    if config.enabled {
        disable(config, vars);
    }
}

/// No port was typed: no text at all, or only white space.
pub open spec fn is_blank(input: Option<Seq<char>>) -> bool {
    match input {
        None => true,
        Some(s) => trimmed(s).len() == 0,
    }
}

/// The configuration, the variables, and the complaint if any, after the
/// user typed `input` (`None`: nothing) as the port. A blank entry clears it.
pub open spec fn port_entry(c: Config, v: VarsView, input: Option<Seq<char>>) -> (
    Config,
    VarsView,
    Option<Seq<char>>,
) {
    if is_blank(input) {
        (
            Config { enabled: false, port: None },
            if c.enabled {
                after_disable(v)
            } else {
                v
            },
            None,
        )
    } else {
        let s = input->0;
        match parsed_u32(trimmed(s)) {
            None => (c, v, Some(not_a_number_text(s))),
            Some(n) => if port_in_range(n as int) {
                (
                    Config { enabled: c.enabled, port: Some(n as u16) },
                    if c.enabled {
                        after_enable(v, n as u16)
                    } else {
                        v
                    },
                    None,
                )
            } else {
                (c, v, Some(config_error_text(ConfigError::InvalidPort(n))))
            },
        }
    }
}

/// Sets the port from the text a user typed, or clears it when there was
/// none or only white space.
/// Clearing the port of an enabled proxy disables it. A new port of an
/// enabled proxy is applied to the variables at once. Text that is not a
/// number, or a number outside `1..=65535`, changes nothing.
pub fn set_port(config: &mut Config, vars: &mut ProxyVars, port_input: Option<String>) -> (r:
    Result<(), AppError>)
    ensures
        r is Ok ==> final(config).wf(),
        ({
            let (c, v, e) = port_entry(*old(config), old(vars)@, opt_text(port_input));
            &&& *final(config) == c
            &&& final(vars)@ == v
            &&& match e {
                None => r is Ok,
                Some(t) => r matches Err(AppError::InvalidInput(m)) && m@ == t,
            }
        }),
{
    match port_input {
        None => {
            clear_port(config, vars);
            Ok(())
        },
        Some(input) => {
            let text = trim(input.as_str());
            if text.unicode_len() == 0 {
                clear_port(config, vars);
                return Ok(());
            }
            let parsed = parse_u32(text);
            match parsed {
                None => {
                    let mut m = String::from_str("无效的端口: ");
                    m.append(input.as_str());
                    m.append(" (必须是数字)");
                    Err(AppError::InvalidInput(m))
                },
                Some(n) => match validate_port(n) {
                    Ok(port) => {
                        config.port = Some(port);
                        if config.enabled {
                            enable_proxy(vars, port);
                        }
                        Ok(())
                    },
                    Err(e) => Err(AppError::InvalidInput(e.message())),
                },
            }
        },
    }
}

/// The line a shell wrapper reads after a command: the proxy to export, or
/// that the proxy is to be cleared.
pub open spec fn protocol_text(config: Config) -> Seq<char> {
    if config.enabled && config.port is Some {
        "#SET_PROXY:"@ + proxy_url_text(config.port->0)
    } else {
        "#CLEAR_PROXY"@
    }
}

/// Writes the line for the shell wrapper.
pub fn protocol_line(config: &Config) -> (r: String)
    ensures
        r@ == protocol_text(*config),
{
    match config.port {
        Some(p) => if config.enabled {
            let url = proxy_url(p);
            let mut line = String::from_str("#SET_PROXY:");
            line.append(url.as_str());
            line
        } else {
            String::from_str("#CLEAR_PROXY")
        },
        None => String::from_str("#CLEAR_PROXY"),
    }
}

} // verus!
