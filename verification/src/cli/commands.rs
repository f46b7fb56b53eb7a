//! The subcommands of the non-interactive command line.
use vstd::prelude::*;

verus! {

/// How many events `events` lists when no limit is given.
pub const DEFAULT_EVENTS_LIMIT: usize = 20;

/// A subcommand.
#[derive(Debug, Clone, PartialEq, Eq)]
pub enum Commands {
    Enable,
    Disable,
    Status,
    Allow { command: AllowCommand },
    Rules { command: RulesCommand },
    Recover,
    Events { limit: usize },
    /// The hidden subcommand that runs the resolver.
    Serve,
}

/// What `allow` does with a domain.
#[derive(Debug, Clone, PartialEq, Eq)]
pub enum AllowCommand {
    Add { domain: String },
    Remove { domain: String },
}

/// What `rules` does.
#[derive(Debug, Clone, Copy, PartialEq, Eq)]
pub enum RulesCommand {
    List,
}

} // verus!
