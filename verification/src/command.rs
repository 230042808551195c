//! The command under which the explorer is offered, and the plugin that
//! offers it.

use vstd::prelude::*;

verus! {

/// The plugin.
#[derive(Clone, Copy, Debug, PartialEq, Eq, Structural)]
pub struct ExploreIrPlugin;

/// The command `explore ir`.
#[derive(Clone, Copy, Debug, PartialEq, Eq, Structural)]
pub struct ExploreIr;

/// An example of how the command is called.
#[derive(Debug, PartialEq, Eq)]
pub struct CommandExample {
    pub example: &'static str,
    pub description: &'static str,
}

impl ExploreIrPlugin {
    /// The version of the plugin.
    pub fn version(&self) -> (version: String)
        ensures
            version@ == "0.1.0"@,
    {
        "0.1.0".to_owned()
    }

    /// The commands of the plugin: the one command `explore ir`.
    pub fn commands(&self) -> (commands: Vec<ExploreIr>)
        ensures
            commands@ == seq![ExploreIr],
    {
        let mut commands: Vec<ExploreIr> = Vec::new();
        commands.push(ExploreIr);
        assert(commands@ =~= seq![ExploreIr]);
        commands
    }
}

impl ExploreIr {
    /// The name of the command.
    pub fn name(&self) -> (name: &'static str)
        ensures
            name@ == "explore ir"@,
    {
        "explore ir"
    }

    /// What the command does, in one sentence.
    pub fn usage(&self) -> (usage: &'static str)
        ensures
            usage@ == "Explore the IR of a block or definition."@,
    {
        "Explore the IR of a block or definition."
    }

    /// What else is to be said of the command.
    pub fn extra_usage(&self) -> (usage: &'static str)
        ensures
            usage@ == "Accepts valid arguments for `view ir`. For more information, see `view ir --help`."@,
    {
        "Accepts valid arguments for `view ir`. For more information, see `view ir --help`."
    }

    /// Two examples: the command on a block and on a custom command.
    pub fn examples(&self) -> (examples: Vec<CommandExample>)
        ensures
            examples@.len() == 2,
            examples@[0].example@ == "explore ir { 1 + 2 }"@,
            examples@[0].description@
                == "Open a terminal viewer for the IR of the { 1 + 2 } block."@,
            examples@[1].example@ == "explore ir 'std bench'"@,
            examples@[1].description@
                == "Explore IR for the 'std bench' command. Only works for custom commands (written in Nushell)."@,
    {
        let mut examples: Vec<CommandExample> = Vec::new();
        examples.push(
            CommandExample {
                example: "explore ir { 1 + 2 }",
                description: "Open a terminal viewer for the IR of the { 1 + 2 } block.",
            },
        );
        examples.push(
            CommandExample {
                example: "explore ir 'std bench'",
                description: "Explore IR for the 'std bench' command. Only works for custom commands (written in Nushell).",
            },
        );
        examples
    }
}

} // verus!
