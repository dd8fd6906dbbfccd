//! The interactive menu: its items, the keys it understands, the status
//! messages it shows, and the controller that turns each key into a change of
//! state and a step for the caller to carry out.

use vstd::prelude::*;
use vstd::string::*;
use crate::actions::{AppError, app_error_text, disable, enable, no_port_text, port_entry, set_port};
use crate::config::{Config, ConfigError};
use crate::proxy::{ProxyVars, VarsView, after_disable, after_enable, opt_text};
use crate::text::{decimal, decimal_string};

verus! {

/// An entry of the menu.
#[derive(Debug, Clone, Copy, PartialEq, Eq, Structural)]
pub enum MenuItem {
    EnableProxy,
    DisableProxy,
    SetPort,
    Exit,
}

/// The entries in the order they are shown.
pub open spec fn menu_items() -> Seq<MenuItem> {
    seq![MenuItem::EnableProxy, MenuItem::DisableProxy, MenuItem::SetPort, MenuItem::Exit]
}

/// The label shown for an entry.
pub open spec fn item_label(item: MenuItem) -> Seq<char> {
    match item {
        MenuItem::EnableProxy => "启用代理"@,
        MenuItem::DisableProxy => "禁用代理"@,
        MenuItem::SetPort => "设置端口"@,
        MenuItem::Exit => "退出"@,
    }
}

impl MenuItem {
    pub fn as_str(&self) -> (r: &'static str)
        ensures
            r@ == item_label(*self),
    {
        match self {
            MenuItem::EnableProxy => "启用代理",
            MenuItem::DisableProxy => "禁用代理",
            MenuItem::SetPort => "设置端口",
            MenuItem::Exit => "退出",
        }
    }

    pub fn all() -> (r: Vec<MenuItem>)
        ensures
            r@ == menu_items(),
    {
        let r = vec![MenuItem::EnableProxy, MenuItem::DisableProxy, MenuItem::SetPort, MenuItem::Exit];
        assert(r@ =~= menu_items());
        r
    }
}

/// How a status message is styled.
#[derive(Debug, Clone, Copy, PartialEq, Eq, Structural)]
pub enum MessageType {
    Success,
    Error,
    Warning,
    Info,
}

/// A message shown under the menu for `pause_ms` milliseconds.
pub struct StatusMessage {
    pub kind: MessageType,
    pub text: String,
    pub pause_ms: u64,
}

/// How long a notice, a warning and an error stay on screen.
pub const NOTICE_PAUSE_MS: u64 = 800;
pub const WARNING_PAUSE_MS: u64 = 1000;
pub const ERROR_PAUSE_MS: u64 = 1500;

/// `m` is the message of `kind` with `text`, shown for `pause_ms`.
pub open spec fn is_message(m: StatusMessage, kind: MessageType, text: Seq<char>, pause_ms: u64) -> bool {
    m.kind == kind && m.text@ == text && m.pause_ms == pause_ms
}

/// The message for a failed action.
pub open spec fn error_text(e: AppError) -> Seq<char> {
    "错误: "@ + app_error_text(e)
}

/// The message for a failed action.
pub fn error_message(e: &AppError) -> (m: StatusMessage)
    ensures
        is_message(m, MessageType::Error, error_text(*e), ERROR_PAUSE_MS),
{
    let inner = e.message();
    let mut text = String::from_str("错误: ");
    text.append(inner.as_str());
    StatusMessage { kind: MessageType::Error, text, pause_ms: ERROR_PAUSE_MS }
}

/// A key press, as far as the menu tells keys apart.
#[derive(Debug, Clone, Copy, PartialEq, Eq, Structural)]
pub enum Key {
    Up,
    Down,
    Enter,
    Esc,
    Char(char),
    Other,
}

/// The selection after `key`, among `len` entries: up and down move by one
/// and stop at either end.
pub open spec fn moved(selected: nat, key: Key, len: nat) -> nat {
    match key {
        Key::Up => if selected > 0 {
            (selected - 1) as nat
        } else {
            selected
        },
        Key::Down => if selected + 1 < len {
            selected + 1
        } else {
            selected
        },
        _ => selected,
    }
}

/// The selection after each of `keys` in turn.
pub open spec fn moved_by_all(selected: nat, keys: Seq<Key>, len: nat) -> nat
    decreases keys.len(),
{
    if keys.len() == 0 {
        selected
    } else {
        moved_by_all(moved(selected, keys[0], len), keys.drop_first(), len)
    }
}

/// Moves the selection for an up or down key.
pub fn move_selection(selected: usize, key: Key, len: usize) -> (r: usize)
    requires
        selected < len,
    ensures
        r == moved(selected as nat, key, len as nat),
        r < len,
{
    match key {
        Key::Up => if selected > 0 {
            selected - 1
        } else {
            selected
        },
        Key::Down => if selected + 1 < len {
            selected + 1
        } else {
            selected
        },
        _ => selected,
    }
}

/// However long a run of keys, the selection stays on an entry.
pub proof fn lemma_selection_in_range(selected: nat, keys: Seq<Key>, len: nat)
    requires
        selected < len,
    ensures
        moved_by_all(selected, keys, len) < len,
    decreases keys.len(),
{
    if keys.len() > 0 {
        lemma_selection_in_range(moved(selected, keys[0], len), keys.drop_first(), len);
    }
}

/// What an action changed, for the message that reports it once saved.
pub enum Outcome {
    Enabled(u16),
    Disabled,
    PortChanged { before: Option<u16>, after: Option<u16> },
}

/// What the caller does next.
pub enum Step {
    /// Nothing beyond drawing the menu again.
    Redraw,
    /// Show a message, then draw the menu again.
    Show(StatusMessage),
    /// Copy the proxy variables into the environment, save the configuration,
    /// then report with `commit_message`.
    Commit(Outcome),
    /// Leave the full screen, read a line, come back, and hand the line to
    /// `port_entered`.
    AskPort,
    /// Leave the menu.
    Exit,
}

/// The message after an action was applied and the save gave `saved`.
pub open spec fn commit_text(o: Outcome, saved: Result<(), ConfigError>) -> Option<(MessageType, Seq<char>, u64)> {
    match saved {
        Err(e) => Some((MessageType::Error, error_text(AppError::Config(e)), ERROR_PAUSE_MS)),
        Ok(_) => match o {
            Outcome::Enabled(p) => Some((MessageType::Success, "代理已启用 (端口: "@ + decimal(p as nat) + ")"@, NOTICE_PAUSE_MS)),
            Outcome::Disabled => Some((MessageType::Success, "代理已禁用"@, NOTICE_PAUSE_MS)),
            Outcome::PortChanged { before, after } => match after {
                None => Some((MessageType::Warning, "端口已清除"@, NOTICE_PAUSE_MS)),
                Some(p) => if before == Some(p) {
                    None
                } else {
                    Some((MessageType::Success, "端口已设置为: "@ + decimal(p as nat), NOTICE_PAUSE_MS))
                },
            },
        },
    }
}

/// Reports an applied action once the save has given `saved`. An unchanged
/// port is not reported.
pub fn commit_message(o: Outcome, saved: Result<(), ConfigError>) -> (r: Option<StatusMessage>)
    ensures
        match (r, commit_text(o, saved)) {
            (None, None) => true,
            (Some(m), Some((kind, text, pause))) => is_message(m, kind, text, pause),
            _ => false,
        },
{
    match saved {
        Err(e) => Some(error_message(&AppError::Config(e))),
        Ok(_) => match o {
            Outcome::Enabled(p) => {
                let digits = decimal_string(p as u32);
                let mut text = String::from_str("代理已启用 (端口: ");
                text.append(digits.as_str());
                text.append(")");
                Some(StatusMessage { kind: MessageType::Success, text, pause_ms: NOTICE_PAUSE_MS })
            },
            Outcome::Disabled => Some(
                StatusMessage {
                    kind: MessageType::Success,
                    text: String::from_str("代理已禁用"),
                    pause_ms: NOTICE_PAUSE_MS,
                },
            ),
            Outcome::PortChanged { before, after } => match after {
                None => Some(
                    StatusMessage {
                        kind: MessageType::Warning,
                        text: String::from_str("端口已清除"),
                        pause_ms: NOTICE_PAUSE_MS,
                    },
                ),
                Some(p) => {
                    let same = match before {
                        Some(b) => b == p,
                        None => false,
                    };
                    if same {
                        None
                    } else {
                        let digits = decimal_string(p as u32);
                        let mut text = String::from_str("端口已设置为: ");
                        text.append(digits.as_str());
                        Some(StatusMessage { kind: MessageType::Success, text, pause_ms: NOTICE_PAUSE_MS })
                    }
                },
            },
        },
    }
}

/// A key that leaves the menu: `q`, `Q` or Escape.
pub open spec fn is_quit(key: Key) -> bool {
    key == Key::Esc || key == Key::Char('q') || key == Key::Char('Q')
}

/// The state of the menu: the configuration, the proxy variables, and the
/// selected entry.
pub struct Controller {
    pub config: Config,
    pub vars: ProxyVars,
    pub selected: usize,
}

impl Controller {
    /// The selection is on an entry, and the configuration is well formed.
    pub open spec fn wf(&self) -> bool {
        self.selected < menu_items().len() && self.config.wf()
    }

    /// The configuration and variables are those of `other`.
    pub open spec fn same_settings(&self, other: &Controller) -> bool {
        self.config == other.config && self@ == other@
    }

    /// The entry under the selection.
    pub open spec fn current(&self) -> MenuItem {
        menu_items()[self.selected as int]
    }

    /// A menu on the first entry.
    pub fn new(config: Config, vars: ProxyVars) -> (r: Controller)
        requires
            config.wf(),
        ensures
            r.config == config,
            r@ == vars@,
            r.selected == 0,
            r.wf(),
    {
        Controller { config, vars, selected: 0 }
    }

    /// Handles one key. Up and down move the selection; Enter acts on the
    /// selected entry; `q`, `Q` and Escape leave; other keys do nothing.
    pub fn on_key(&mut self, key: Key) -> (r: Step)
        requires
            old(self).wf(),
        ensures
            final(self).wf(),
            key == Key::Up || key == Key::Down ==> {
                &&& r is Redraw
                &&& final(self).selected == moved(old(self).selected as nat, key, 4)
                &&& final(self).same_settings(old(self))
            },
            key != Key::Up && key != Key::Down ==> final(self).selected == old(self).selected,
            is_quit(key) ==> r is Exit && final(self).same_settings(old(self)),
            key == Key::Enter ==> match old(self).current() {
                MenuItem::EnableProxy => match old(self).config.port {
                    None => {
                        &&& r matches Step::Show(m) && is_message(
                            m,
                            MessageType::Warning,
                            no_port_text(),
                            WARNING_PAUSE_MS,
                        )
                        &&& final(self).same_settings(old(self))
                    },
                    Some(p) => {
                        &&& r matches Step::Commit(Outcome::Enabled(q)) && q == p
                        &&& final(self).config == (Config { enabled: true, port: Some(p) })
                        &&& final(self)@ == after_enable(old(self)@, p)
                    },
                },
                MenuItem::DisableProxy => {
                    &&& r matches Step::Commit(Outcome::Disabled)
                    &&& final(self).config == (Config { enabled: false, port: old(self).config.port })
                    &&& final(self)@ == after_disable(old(self)@)
                },
                MenuItem::SetPort => r is AskPort && final(self).same_settings(old(self)),
                MenuItem::Exit => r is Exit && final(self).same_settings(old(self)),
            },
            !(key == Key::Up || key == Key::Down || key == Key::Enter || is_quit(key)) ==> {
                &&& r is Redraw
                &&& final(self).same_settings(old(self))
            },
    {
        match key {
            Key::Up | Key::Down => {
                self.selected = move_selection(self.selected, key, 4);
                Step::Redraw
            },
            Key::Esc | Key::Char('q') | Key::Char('Q') => Step::Exit,
            Key::Enter => {
                let items = MenuItem::all();
                match items[self.selected] {
                    MenuItem::EnableProxy => match self.config.port {
                        None => Step::Show(
                            StatusMessage {
                                kind: MessageType::Warning,
                                text: String::from_str("请先设置有效的端口！"),
                                pause_ms: WARNING_PAUSE_MS,
                            },
                        ),
                        Some(p) => match enable(&mut self.config, &mut self.vars) {
                            Ok(()) => Step::Commit(Outcome::Enabled(p)),
                            Err(e) => Step::Show(error_message(&e)),
                        },
                    },
                    MenuItem::DisableProxy => {
                        disable(&mut self.config, &mut self.vars);
                        Step::Commit(Outcome::Disabled)
                    },
                    MenuItem::SetPort => Step::AskPort,
                    MenuItem::Exit => Step::Exit,
                }
            },
            _ => Step::Redraw,
        }
    }

    /// Handles the line typed after `AskPort`: `None` when it was empty.
    pub fn port_entered(&mut self, input: Option<String>) -> (r: Step)
        requires
            old(self).wf(),
        ensures
            final(self).wf(),
            final(self).selected == old(self).selected,
            ({
                let (c, v, e) = port_entry(old(self).config, old(self)@, opt_text(input));
                &&& final(self).config == c
                &&& final(self)@ == v
                &&& match e {
                    None => r matches Step::Commit(Outcome::PortChanged { before, after })
                        && before == old(self).config.port && after == c.port,
                    Some(t) => r matches Step::Show(m) && is_message(
                        m,
                        MessageType::Error,
                        "错误: "@ + ("Invalid input: "@ + t),
                        ERROR_PAUSE_MS,
                    ),
                }
            }),
    {
        let before = self.config.port;
        match set_port(&mut self.config, &mut self.vars, input) {
            Ok(()) => Step::Commit(Outcome::PortChanged { before, after: self.config.port }),
            Err(e) => Step::Show(error_message(&e)),
        }
    }
}

impl View for Controller {
    type V = VarsView;

    /// The proxy variables of the session.
    open spec fn view(&self) -> VarsView {
        self.vars@
    }
}

} // verus!
