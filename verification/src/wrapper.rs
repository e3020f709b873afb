//! Building a whole manual page from a command.

use vstd::prelude::*;

use crate::command::CommandSpec;
use crate::error::Error;
use crate::fill::{
    command_flags, description_text, fill_about, fill_author, fill_description, fill_flags,
    fill_positionals, fill_subcommands, first_repeat, flags_distinct, repeat_error,
    with_positionals, with_subcommands,
};
use crate::manual::{ManualPage, ManualView};

verus! {

/// The manual page made from a command that has an about text and an
/// author: its title, about, description, author, flags, positional
/// arguments and subcommands, in that order.
pub open spec fn page_of(cmd: CommandSpec) -> ManualView {
    let page = ManualView::named(cmd.title())
        .with_about(cmd.about.unwrap()@)
        .with_description(description_text(cmd))
        .with_author(cmd.author.unwrap()@)
        .with_flags(command_flags(cmd.args@));
    with_subcommands(with_positionals(page, cmd.args@), cmd.subcommands@)
}

/// A manual page can be made from the command: it has an about text and an
/// author, and no argument repeats a flag of another.
pub open spec fn convertible(cmd: CommandSpec) -> bool {
    &&& cmd.about is Some
    &&& cmd.author is Some
    &&& flags_distinct(cmd.args@)
}

/// The error reported for a command that cannot be converted: a missing
/// about text first, then a missing author, then the first repeated flag.
pub open spec fn conversion_error(cmd: CommandSpec, e: Error) -> bool {
    if cmd.about is None {
        e is MissingAbout
    } else if cmd.author is None {
        e is MissingAuthor
    } else {
        exists|i: int| first_repeat(cmd.args@, i) && repeat_error(cmd.args@, i, e)
    }
}

impl ManualPage {
    /// Create a `ManualPage` based on the information contained in the given
    /// command.
    pub fn try_from(cmd: &CommandSpec) -> (res: Result<ManualPage, Error>)
        ensures
            res is Ok <==> convertible(*cmd),
            res matches Err(e) ==> conversion_error(*cmd, e),
            res matches Ok(m) ==> m@ == page_of(*cmd),
    {
        let name = cmd.title_name();
        let manpage = ManualPage::new(name.as_str());
        let manpage = fill_about(cmd, manpage)?;
        let manpage = fill_description(cmd, manpage)?;
        let manpage = fill_author(cmd, manpage)?;
        let manpage = fill_flags(cmd, manpage)?;
        let manpage = fill_positionals(cmd, manpage)?;
        let manpage = fill_subcommands(cmd, manpage)?;
        Ok(manpage)
    }
}

} // verus!
