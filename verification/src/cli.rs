//! The command surface as plain data: the binary parses its arguments
//! into these types, and the library computes from them.

use vstd::prelude::*;

use crate::resolver::ResolutionContext;

verus! {

/// The whole command line.
pub struct Cli {
    pub command: Commands,
}

/// Top-level subcommands.
pub enum Commands {
    /// Pull one random file.
    Pull(PullArgs),
    /// Manage the repository list.
    Repository { action: RepositoryAction },
}

/// Options of the pull operation.
#[derive(Clone, Copy, Debug, PartialEq, Eq, Structural)]
pub struct PullArgs {
    /// Maximum nesting depth; 0 means unbounded.
    pub max_depth: u32,
}

/// Repository-management subcommands.
#[derive(Clone, Debug, PartialEq)]
pub enum RepositoryAction {
    /// Record a repository URL.
    Add { url: String },
    /// Drop a repository URL.
    Remove { url: String },
    /// Show the recorded URLs.
    List,
    /// Fetch every recorded repository into its sync file.
    Sync,
}

/// The context a pull starts its resolution with: the requested depth
/// budget, at depth 1.
pub fn initial_context(args: &PullArgs) -> (ctx: ResolutionContext)
    ensures
        ctx.max_depth == args.max_depth,
        ctx.current_depth == 1,
{
    ResolutionContext { max_depth: args.max_depth, current_depth: 1 }
}

} // verus!
