//! Descriptions of the chat commands that the bot registers, as plain data.

use vstd::prelude::*;

pub mod cargocut;
pub mod moderate;
pub mod myntra;
pub mod serverstats;
pub mod vote;
pub mod welcome_message;
pub mod youtube;

verus! {

/// The kind of value a command option takes.
#[derive(Clone, Copy, Debug, PartialEq, Eq, Structural)]
pub enum OptionKind {
    Text,
    Number,
    Integer,
    Boolean,
    User,
}

/// One option of a command.
#[derive(Debug)]
pub struct CommandOption {
    pub kind: OptionKind,
    pub name: String,
    pub description: String,
    pub required: bool,
}

/// A command as it is registered: its name, its description, its options in
/// order, and whether only administrators may use it.
#[derive(Debug)]
pub struct CommandSpec {
    pub name: String,
    pub description: String,
    pub options: Vec<CommandOption>,
    pub admin_only: bool,
}

/// `o` is the option of kind `kind` named `name`, described by
/// `description`, required or not.
pub open spec fn option_is(
    o: CommandOption,
    kind: OptionKind,
    name: Seq<char>,
    description: Seq<char>,
    required: bool,
) -> bool {
    o.kind == kind && o.name@ == name && o.description@ == description && o.required == required
}

/// `c` is the command named `name`, described by `description`, open to
/// every member, with `n` options.
pub open spec fn command_is(c: CommandSpec, name: Seq<char>, description: Seq<char>, n: nat) -> bool {
    c.name@ == name && c.description@ == description && !c.admin_only && c.options@.len() == n
}

pub fn command_option(kind: OptionKind, name: &str, description: &str, required: bool) -> (r: CommandOption)
    ensures
        option_is(r, kind, name@, description@, required),
{
    CommandOption {
        kind,
        name: String::from_str(name),
        description: String::from_str(description),
        required,
    }
}

/// A command open to every member, with no options yet.
pub fn command(name: &str, description: &str) -> (r: CommandSpec)
    ensures
        command_is(r, name@, description@, 0),
{
    CommandSpec {
        name: String::from_str(name),
        description: String::from_str(description),
        options: Vec::new(),
        admin_only: false,
    }
}

} // verus!
