//! PostureFlow: security posture profiles, their validation, and the
//! context rules (network, schedule, running applications, hardware tokens)
//! that choose between them.
pub mod text;
pub mod profile;
pub mod applet;
pub mod strmap;
pub mod config;
pub mod schedule;
pub mod autoflow;
pub mod hardware;
pub mod inspector;
pub mod mcp;
pub mod triggers;
pub mod theme;
pub mod system;
pub mod daemon;
pub mod service;
pub mod network;
pub mod platform;
