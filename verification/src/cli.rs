//! The command line of the agent.
use vstd::prelude::*;

verus! {

/// mnemo - an AI agent
#[derive(Debug, Clone, PartialEq, Eq)]
pub struct Cli {
    pub command: Option<Command>,
}

/// The commands of the agent; without one, it runs.
#[derive(Debug, Clone, Copy, PartialEq, Eq)]
pub enum Command {
    /// Interactive setup: configure model and WeChat login
    Setup,
}

} // verus!
