//! Overlay configuration, footprint geometry and the decisions around
//! reloading it.

pub mod cmd;
pub mod config;
pub mod config_file;
pub mod error;
pub mod menu;
pub mod reload;
pub mod scaling;
pub mod shape;
pub mod watch;
pub mod window;
