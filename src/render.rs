//! What one frame of the menu shows, computed from the configuration, the
//! proxy variables and the selection. Drawing it on a terminal is the
//! caller's part; every frame is drawn on a cleared screen.

use vstd::prelude::*;
use vstd::string::*;
use crate::config::Config;
use crate::menu::{MenuItem, menu_items};
use crate::proxy::{ProxyVars, get_current_proxy, opt_text, snapshot, snapshot_of};
use crate::text::{decimal, decimal_string};

verus! {

/// One entry of the menu as drawn.
#[derive(Debug, Clone, Copy, PartialEq, Eq, Structural)]
pub struct MenuRow {
    pub item: MenuItem,
    /// Drawn highlighted: the entry is selected.
    pub highlighted: bool,
    /// Drawn in full colour; otherwise greyed out, though still selectable.
    pub available: bool,
}

/// The content of a frame.
pub struct Frame {
    /// A proxy is in effect in the environment.
    pub proxy_active: bool,
    pub port_text: String,
    pub http_text: String,
    pub https_text: String,
    pub rows: Vec<MenuRow>,
}

/// Shown for a value that is not set.
pub open spec fn unset_text() -> Seq<char> {
    "未设置"@
}

/// An optional text as shown.
pub open spec fn shown(o: Option<Seq<char>>) -> Seq<char> {
    match o {
        Some(t) => t,
        None => unset_text(),
    }
}

/// An optional port as shown.
pub open spec fn port_shown(p: Option<u16>) -> Seq<char> {
    match p {
        Some(n) => decimal(n as nat),
        None => unset_text(),
    }
}

/// Enabling is greyed out while there is no port.
pub open spec fn item_available(item: MenuItem, config: Config) -> bool {
    item != MenuItem::EnableProxy || config.port is Some
}

fn shown_text(o: Option<String>) -> (r: String)
    ensures
        r@ == shown(opt_text(o)),
{
    match o {
        Some(t) => t,
        None => String::from_str("未设置"),
    }
}

/// Shows the port, or that none is set.
pub fn port_text(p: Option<u16>) -> (r: String)
    ensures
        r@ == port_shown(p),
{
    match p {
        Some(n) => decimal_string(n as u32),
        None => String::from_str("未设置"),
    }
}

/// Computes the frame for `config`, the variables `vars`, and the entry
/// `selected`.
pub fn render_ui(config: &Config, vars: &ProxyVars, selected: usize) -> (r: Frame)
    ensures
        r.proxy_active == (snapshot_of(vars@).0 is Some || snapshot_of(vars@).1 is Some),
        r.port_text@ == port_shown(config.port),
        r.http_text@ == shown(snapshot_of(vars@).0),
        r.https_text@ == shown(snapshot_of(vars@).1),
        r.rows@.len() == menu_items().len(),
        forall|i: int|
            0 <= i < menu_items().len() ==> (#[trigger] r.rows@[i]) == (MenuRow {
                item: menu_items()[i],
                highlighted: i == selected,
                available: item_available(menu_items()[i], *config),
            }),
{
    let (proxy_active, _) = get_current_proxy(vars);
    let s = snapshot(vars);
    let items = MenuItem::all();
    let mut rows: Vec<MenuRow> = Vec::new();
    let mut i: usize = 0;
    while i < items.len()
        invariant
            items@ == menu_items(),
            i <= items@.len(),
            rows@.len() == i,
            forall|k: int|
                0 <= k < i ==> (#[trigger] rows@[k]) == (MenuRow {
                    item: menu_items()[k],
                    highlighted: k == selected,
                    available: item_available(menu_items()[k], *config),
                }),
        decreases items@.len() - i,
    {
        let item = items[i];
        let available = match item {
            MenuItem::EnableProxy => config.port.is_some(),
            _ => true,
        };
        rows.push(MenuRow { item, highlighted: i == selected, available });
        i = i + 1;
    }
    Frame {
        proxy_active,
        port_text: port_text(config.port),
        http_text: shown_text(s.http),
        https_text: shown_text(s.https),
        rows,
    }
}

} // verus!
