//! Sentinel: the decision logic of a DNS ad-blocking guard, verified with Verus.
pub mod app;
pub mod blocking;
pub mod cli;
pub mod clock;
pub mod control;
pub mod platform;
pub mod policy;
pub mod sorted;
pub mod ids;
pub mod install;
pub mod storage;
pub mod text;
pub mod tui;
