//! The command-line tool that does the work, as this library sees it: the
//! commands it is given, and what comes back from one run of it.

use vstd::prelude::*;

verus! {

/// What one run of the tool left behind.
#[derive(Clone, Debug)]
pub struct InvocationOutcome {
    /// The process ended with a zero exit status.
    pub exit_succeeded: bool,
    pub stdout: String,
    pub stderr: String,
}

/// The tool could not be started at all.
#[derive(Clone, Debug)]
pub struct LaunchError {
    /// The operating system's words for what went wrong.
    pub reason: String,
}

/// One command of the tool.
#[derive(Clone, Debug)]
pub enum ToolCommand {
    /// Add the mod with the given identifier.
    Add(String),
    /// List the installed mods.
    List,
    /// Look for newer versions and install them.
    Upgrade,
    /// Print the tool's version: a probe for whether the tool is there.
    Version,
}

/// The name under which the tool is started.
pub open spec fn tool_name_text() -> Seq<char> {
    "ferium"@
}

impl ToolCommand {
    /// The arguments that the tool is started with for this command.
    pub open spec fn arguments(self) -> Seq<Seq<char>> {
        match self {
            ToolCommand::Add(identifier) => seq!["add"@, identifier@],
            ToolCommand::List => seq!["list"@],
            ToolCommand::Upgrade => seq!["upgrade"@],
            ToolCommand::Version => seq!["--version"@],
        }
    }

/// The arguments that the tool is started with for this command.
    pub fn args(&self) -> (args: Vec<String>)
        ensures
            args.deep_view() == self.arguments(),
    {
        let mut args: Vec<String> = Vec::new();
        match self {
            ToolCommand::Add(identifier) => {
                args.push("add".to_string());
                args.push(identifier.clone());
            },
            ToolCommand::List => {
                args.push("list".to_string());
            },
            ToolCommand::Upgrade => {
                args.push("upgrade".to_string());
            },
            ToolCommand::Version => {
                args.push("--version".to_string());
            },
        }
        assert(args.deep_view() =~= self.arguments());
        args
    }
}

/// The name under which the tool is started.
pub fn tool_name() -> (name: &'static str)
    ensures
        name@ == tool_name_text(),
{
    "ferium"
}

/// Whether a probe shows the tool to be there: it ran and ended well.
pub open spec fn probe_succeeded(probe: Result<InvocationOutcome, LaunchError>) -> bool {
    match probe {
        Ok(outcome) => outcome.exit_succeeded,
        Err(_) => false,
    }
}

/// Whether the tool is installed and can be reached, judged by what a run of
/// its version command gave. What the tool printed plays no part.
pub fn tool_available(probe: &Result<InvocationOutcome, LaunchError>) -> (available: bool)
    ensures
        available == probe_succeeded(*probe),
{
    match probe {
        Ok(outcome) => outcome.exit_succeeded,
        Err(_) => false,
    }
}

} // verus!
