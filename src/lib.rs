pub mod config;
pub mod icon;
pub mod logs;
pub mod server;
