use vstd::prelude::*;

pub mod decimal;
pub mod query_handler;
pub mod report_generator;

verus! {

/// The query a caller hands to the pipeline: which language to search,
/// how many of its most-starred projects to consider, and where the
/// repository search endpoint lives.
#[derive(Clone, Debug)]
pub struct BusFactorQueryCommand {
    pub language: String,
    pub project_count: u32,
    pub github_url: String,
}

impl BusFactorQueryCommand {
    /// A command is actionable only when it asks for at least one project
    /// of a named language; otherwise the whole run is a deliberate no-op.
    pub open spec fn is_actionable(&self) -> bool {
        self.project_count > 0 && self.language@.len() > 0
    }
}

/// Decides whether the pipeline should run at all: an empty language or a
/// zero project count means there is nothing to do, and the caller exits
/// quietly with no output rather than reporting an error.
pub fn validate_command(command: &BusFactorQueryCommand) -> (run: bool)
    ensures
        run == command.is_actionable(),
{
    command.project_count > 0 && !command.language.as_str().is_empty()
}

} // verus!
