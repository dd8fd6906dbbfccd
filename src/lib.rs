//! Session proxy manager: the logic behind a terminal menu that switches the
//! HTTP/HTTPS proxy variables of the current session and remembers a port.

pub mod config;
pub mod text;
pub mod proxy;
pub mod actions;
pub mod menu;
pub mod input;
pub mod render;
pub mod profile;
