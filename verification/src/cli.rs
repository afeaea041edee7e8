use vstd::prelude::*;

verus! {

/// The parsed command line: an optional subcommand.
pub struct Cli {
    pub command: Option<Commands>,
}

/// The tool's subcommands.
#[derive(Debug)]
pub enum Commands {
    /// Adds a new task.
    Add { description: String, scope: Option<String> },
    /// Lists tasks, optionally only those under one scope.
    List { scope: Option<String> },
    /// Toggles a task's completion.
    Complete { id: u32 },
    /// Deletes a task.
    Delete { id: u32 },
    /// Scope management actions.
    Scope { action: ScopeCommands },
}

/// Actions on scopes.
#[derive(Debug, Clone, Copy, PartialEq, Eq, Structural)]
pub enum ScopeCommands {
    List,
}

fn clone_commands(c: &Commands) -> (r: Commands)
    ensures
        r == *c,
{
    match c {
        Commands::Add { description, scope } => Commands::Add {
            description: description.clone(),
            scope: match scope {
                Some(s) => Some(s.clone()),
                None => None,
            },
        },
        Commands::List { scope } => Commands::List {
            scope: match scope {
                Some(s) => Some(s.clone()),
                None => None,
            },
        },
        Commands::Complete { id } => Commands::Complete { id: *id },
        Commands::Delete { id } => Commands::Delete { id: *id },
        Commands::Scope { action } => Commands::Scope { action: *action },
    }
}

impl Cli {
    /// The command to run: the one given, or listing everything when none
    /// was.
    pub fn get_command(&self) -> (r: Commands)
        ensures
            r == (match self.command {
                Some(c) => c,
                None => Commands::List { scope: None },
            }),
    {
        match &self.command {
            Some(c) => clone_commands(c),
            None => Commands::List { scope: None },
        }
    }
}

} // verus!
