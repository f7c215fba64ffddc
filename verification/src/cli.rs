//! Options shared by every command.
use vstd::prelude::*;
use crate::output::OutputFormat;

verus! {

/// Options every command accepts.
pub struct GlobalArgs {
    /// The context to run against.
    pub context: Option<String>,
    /// The output format.
    pub output: OutputFormat,
    /// Whether to show request and response details.
    pub verbose: bool,
    /// Whether to print without colors.
    pub no_color: bool,
}

/// Paging options of list commands.
#[derive(Clone, Copy, PartialEq, Eq, Structural, Debug)]
pub struct PaginationArgs {
    /// The page to show (1-based).
    pub page: u64,
    /// Items per page.
    pub limit: u64,
    /// Whether to gather every page.
    pub all: bool,
}

} // verus!
