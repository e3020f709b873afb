//! The description of a command-line interface that a manual page is
//! generated from: a command, its arguments and its subcommands, held as
//! plain values.

use vstd::prelude::*;

verus! {

/// One of the values that an argument accepts.
#[derive(Debug, Clone)]
pub struct PossibleValueSpec {
    /// The value itself.
    pub name: String,
    /// Its help text, if it has one.
    pub help: Option<String>,
    /// Whether the value is hidden from help output.
    pub hidden: bool,
}

/// An argument of a command.
#[derive(Debug, Clone)]
pub struct ArgSpec {
    /// The argument's identifier.
    pub id: String,
    /// Its short flag (`-x`), if any.
    pub short: Option<char>,
    /// Its long flag (`--name`), if any.
    pub long: Option<String>,
    /// Its help text, if any.
    pub help: Option<String>,
    /// The values it accepts, as the command line parser lists them.
    pub possible_values: Vec<PossibleValueSpec>,
    /// The names of its values, as shown in usage strings.
    pub value_names: Vec<String>,
    /// Whether it takes a value. The parser reports this through its list of
    /// options, which holds flagged arguments only: read from a
    /// `clap::Command`, a positional argument has `false` here.
    pub takes_value: bool,
    /// Whether its action stores the value given (`Set` or `Append`).
    pub sets_value: bool,
    /// Whether it is hidden from help output.
    pub hidden: bool,
    /// Whether it is required.
    pub required: bool,
}

/// A command and what the manual page shows of it.
#[derive(Debug)]
pub struct CommandSpec {
    /// The command's name.
    pub name: String,
    /// The name shown to users, when it differs from `name`.
    pub display_name: Option<String>,
    /// The short description.
    pub about: Option<String>,
    /// The long description.
    pub long_about: Option<String>,
    /// The author line.
    pub author: Option<String>,
    /// The arguments, in the order they were declared.
    pub args: Vec<ArgSpec>,
    /// The subcommands, in the order they were declared.
    pub subcommands: Vec<CommandSpec>,
    /// Whether the command is hidden from help output.
    pub hidden: bool,
}

impl ArgSpec {
    /// A positional argument has neither a short nor a long flag.
    pub open spec fn is_positional(self) -> bool {
        self.short is None && self.long is None
    }

    /// An option is a flagged argument that takes a value.
    pub open spec fn is_opt(self) -> bool {
        self.takes_value && !self.is_positional()
    }

    /// Whether this is a positional argument.
    pub fn positional(&self) -> (res: bool)
        ensures
            res == self.is_positional(),
    {
        self.short.is_none() && self.long.is_none()
    }

    /// Whether this is an option (a flagged argument that takes a value).
    pub fn opt(&self) -> (res: bool)
        ensures
            res == self.is_opt(),
    {
        self.takes_value && !self.positional()
    }
}

impl CommandSpec {
    /// The name a manual page is titled with: the display name when there is
    /// one, else the name.
    pub open spec fn title(self) -> Seq<char> {
        match self.display_name {
            Some(d) => d@,
            None => self.name@,
        }
    }

    /// The name a manual page is titled with: the display name when there is
    /// one, else the name.
    pub fn title_name(&self) -> (res: String)
        ensures
            res@ == self.title(),
    {
        match &self.display_name {
            Some(d) => d.clone(),
            None => self.name.clone(),
        }
    }
}

} // verus!
