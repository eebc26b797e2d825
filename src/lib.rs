//! A verified core for a system-tray controller of the WARP VPN client:
//! the action table behind the tray menu, the classification of the
//! client's status output and of desktop theme probes, the user command
//! list, and the decisions of the running tray session.
pub mod actions;
pub mod commands;
pub mod icon;
pub mod invocation;
pub mod session;
pub mod text;
pub mod theme;

pub use icon::get_active_tray_icon;
pub use theme::is_dark_mode_enabled;
