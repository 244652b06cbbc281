//! The OpenCLI 0.1 description of a command-line tool: its commands,
//! options, arguments and exit codes.

use vstd::prelude::*;

verus! {

#[verifier::external_type_specification]
#[verifier::external_body]
pub struct ExJsonValue(serde_json::Value);

/// The value that a flag of the description takes when it is left out.
pub fn default_false() -> (r: bool)
    ensures
        !r,
{
    false
}

/// The OpenCLI description.
#[derive(Debug, Clone, PartialEq)]
pub struct V0_1 {
    /// Root command arguments.
    pub arguments: Option<Vec<ArgumentElement>>,
    /// Root command sub commands.
    pub commands: Option<Vec<CommandElement>>,
    /// The conventions used by the CLI.
    pub conventions: Option<Conventions>,
    /// Examples of how to use the CLI.
    pub examples: Option<Vec<String>>,
    /// Root command exit codes.
    pub exit_codes: Option<Vec<ExitCodeElement>>,
    /// Information about the CLI.
    pub info: Info,
    /// Whether the command requires interactive input.
    pub interactive: bool,
    /// Custom metadata.
    pub metadata: Option<Vec<MetadatumElement>>,
    /// The OpenCLI version number.
    pub opencli: String,
    /// Root command options.
    pub options: Option<Vec<OptionElement>>,
}

/// A positional argument.
#[derive(Debug, Clone, PartialEq)]
pub struct ArgumentElement {
    /// A list of accepted values.
    pub accepted_values: Option<Vec<String>>,
    /// The minimum and maximum number of argument values.
    pub arity: Option<Arity>,
    /// The argument description.
    pub description: Option<String>,
    /// The argument group.
    pub group: Option<String>,
    /// Whether the argument is hidden.
    pub hidden: bool,
    /// Custom metadata.
    pub metadata: Option<Vec<MetadatumElement>>,
    /// The argument name.
    pub name: String,
    /// Whether the argument is required.
    pub required: bool,
}

/// The minimum and maximum number of values of an argument.
#[derive(Debug, Clone, PartialEq)]
pub struct Arity {
    /// The maximum number of values allowed.
    pub maximum: Option<i64>,
    /// The minimum number of values allowed.
    pub minimum: Option<i64>,
}

/// A named piece of custom metadata.
#[derive(Debug, Clone, PartialEq)]
pub struct MetadatumElement {
    pub name: String,
    pub value: Option<serde_json::Value>,
}

/// A command or sub command.
#[derive(Debug, PartialEq)]
pub struct CommandElement {
    /// The command aliases.
    pub aliases: Option<Vec<String>>,
    /// The command arguments.
    pub arguments: Option<Vec<ArgumentElement>>,
    /// The command's sub commands.
    pub commands: Option<Vec<CommandElement>>,
    /// The command description.
    pub description: Option<String>,
    /// Examples of how to use the command.
    pub examples: Option<Vec<String>>,
    /// The command's exit codes.
    pub exit_codes: Option<Vec<ExitCodeElement>>,
    /// Whether the command is hidden.
    pub hidden: bool,
    /// Whether the command requires interactive input.
    pub interactive: bool,
    /// Custom metadata.
    pub metadata: Option<Vec<MetadatumElement>>,
    /// The command name.
    pub name: String,
    /// The command options.
    pub options: Option<Vec<OptionElement>>,
}

impl Clone for CommandElement {
    fn clone(&self) -> (r: Self)
        decreases self,
    {
        let commands = match &self.commands {
            None => None,
            Some(list) => {
                let mut copy: Vec<CommandElement> = Vec::new();
                let mut i: usize = 0;
                while i < list.len()
                    invariant
                        i <= list@.len(),
                        self.commands == Some(*list),
                    decreases list@.len() - i,
                {
                    proof {
                        assert(decreases_to!(*self => self.commands));
                        assert(decreases_to!(self.commands => self.commands->0));
                        assert(decreases_to!(*list => list@));
                        assert(decreases_to!(list@ => list@[i as int]));
                    }
                    copy.push(list[i].clone());
                    i = i + 1;
                }
                Some(copy)
            },
        };
        CommandElement {
            aliases: self.aliases.clone(),
            arguments: self.arguments.clone(),
            commands,
            description: self.description.clone(),
            examples: self.examples.clone(),
            exit_codes: self.exit_codes.clone(),
            hidden: self.hidden,
            interactive: self.interactive,
            metadata: self.metadata.clone(),
            name: self.name.clone(),
            options: self.options.clone(),
        }
    }
}

/// An exit code and what it means.
#[derive(Debug, Clone, PartialEq)]
pub struct ExitCodeElement {
    /// The exit code.
    pub code: i64,
    /// The exit code description.
    pub description: Option<String>,
}

/// An option of a command.
#[derive(Debug, Clone, PartialEq)]
pub struct OptionElement {
    /// The option's aliases.
    pub aliases: Option<Vec<String>>,
    /// The option's arguments.
    pub arguments: Option<Vec<ArgumentElement>>,
    /// The option description.
    pub description: Option<String>,
    /// The option group.
    pub group: Option<String>,
    /// Whether the option is hidden.
    pub hidden: bool,
    /// Custom metadata.
    pub metadata: Option<Vec<MetadatumElement>>,
    /// The option name.
    pub name: String,
    /// Whether the option is reachable from the parent command and its sub commands.
    pub recursive: bool,
    /// Whether the option is required.
    pub required: bool,
}

/// The conventions used by the CLI.
#[derive(Debug, Clone, PartialEq)]
pub struct Conventions {
    /// Whether grouping of short options is allowed.
    pub group_options: Option<bool>,
    /// The option argument separator.
    pub option_separator: Option<String>,
}

/// Information about the CLI.
#[derive(Debug, Clone, PartialEq)]
pub struct Info {
    /// The contact information.
    pub contact: Option<Contact>,
    /// A description of the application.
    pub description: Option<String>,
    /// The application license.
    pub license: Option<License>,
    /// A short summary of the application.
    pub summary: Option<String>,
    /// The application title.
    pub title: String,
    /// The application version.
    pub version: String,
}

/// Contact information.
#[derive(Debug, Clone, PartialEq)]
pub struct Contact {
    /// The email address of the contact person or organization.
    pub email: Option<String>,
    /// The name of the contact person or organization.
    pub name: Option<String>,
    /// The URI for the contact information.
    pub url: Option<String>,
}

/// The application license.
#[derive(Debug, Clone, PartialEq)]
pub struct License {
    /// The SPDX license identifier.
    pub identifier: Option<String>,
    /// The license name.
    pub name: Option<String>,
}

} // verus!
