pub mod blocked_domains;
pub mod config;
pub mod events;
pub mod install;
pub mod state;
