pub mod blocklist;
pub mod resolver;
