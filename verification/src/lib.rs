//! Verified core of strixctl: the decisions, parsers and formatters behind the
//! power-management GUI, its D-Bus daemon and its privileged CPU helper.

pub mod cpuctl;
pub mod cpulist;
pub mod daemon;
pub mod gui;
pub mod panel;
pub mod platform;
pub mod profiles;
pub mod sensors;
pub mod state;
pub mod text;
pub mod tools;
pub mod windows;
