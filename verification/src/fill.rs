//! Functions that take what a command description holds and fill a manual
//! page with it.

use vstd::prelude::*;

use crate::command::{ArgSpec, CommandSpec};
use crate::error::Error;
use crate::entry::{
    flag_entry, flag_entry_text, help_with_possible_values, help_with_values_text, long_flag_text,
    positional_entry, positional_entry_text, short_flag_text, synopsis_line, synopsis_line_text,
};
use crate::text::push_char;
use crate::manual::{FlagEntry, FlagView, ManualPage, ManualView, PageSection, SectionView};

verus! {

/// Fills the "about" section.
pub fn fill_about(cmd: &CommandSpec, manpage: ManualPage) -> (res: Result<ManualPage, Error>)
    ensures
        res is Ok <==> cmd.about is Some,
        res matches Err(e) ==> e is MissingAbout,
        res matches Ok(m) ==> m@ == manpage@.with_about(cmd.about.unwrap()@),
{
    match &cmd.about {
        Some(about) => {
            let mut manpage = manpage;
            manpage.about = Some(about.clone());
            Ok(manpage)
        },
        None => Err(Error::MissingAbout),
    }
}

/// The long description a page gets: the long about text, or the empty
/// text when there is none.
pub open spec fn description_text(cmd: CommandSpec) -> Seq<char> {
    match cmd.long_about {
        Some(d) => d@,
        None => Seq::empty(),
    }
}

/// Fills the "description" section with the long_about.
///
/// Unlike `fill_about` and `fill_author`, this intentionally uses an empty
/// string when `long_about` is not set: a missing description is valid and
/// common for short CLIs.
pub fn fill_description(cmd: &CommandSpec, manpage: ManualPage) -> (res: Result<ManualPage, Error>)
    ensures
        res matches Ok(m) && m@ == manpage@.with_description(description_text(*cmd)),
{
    let mut manpage = manpage;
    manpage.description = match &cmd.long_about {
        Some(d) => Some(d.clone()),
        None => Some(String::new()),
    };
    Ok(manpage)
}

/// Fills the "author".
pub fn fill_author(cmd: &CommandSpec, manpage: ManualPage) -> (res: Result<ManualPage, Error>)
    ensures
        res is Ok <==> cmd.author is Some,
        res matches Err(e) ==> e is MissingAuthor,
        res matches Ok(m) ==> m@ == manpage@.with_author(cmd.author.unwrap()@),
{
    match &cmd.author {
        Some(author) => {
            let mut manpage = manpage;
            let ghost before = manpage.authors.deep_view();
            manpage.authors.push(author.clone());
            assert(manpage.authors.deep_view() =~= before.push(author@));
            Ok(manpage)
        },
        None => Err(Error::MissingAuthor),
    }
}

/// The long flag of the `i`th argument was already used by an earlier one.
pub open spec fn long_repeated(args: Seq<ArgSpec>, i: int) -> bool {
    &&& args[i].long is Some
    &&& exists|j: int| 0 <= j < i && #[trigger] args[j].long.deep_view() == args[i].long.deep_view()
}

/// The short flag of the `i`th argument was already used by an earlier one.
pub open spec fn short_repeated(args: Seq<ArgSpec>, i: int) -> bool {
    &&& args[i].short is Some
    &&& exists|j: int| 0 <= j < i && #[trigger] args[j].short == args[i].short
}

/// The `i`th argument repeats a flag of an earlier one.
pub open spec fn repeats_flag(args: Seq<ArgSpec>, i: int) -> bool {
    long_repeated(args, i) || short_repeated(args, i)
}

/// No argument repeats a flag of an earlier one.
pub open spec fn flags_distinct(args: Seq<ArgSpec>) -> bool {
    forall|i: int| 0 <= i < args.len() ==> !#[trigger] repeats_flag(args, i)
}

/// The `i`th argument is the first one that repeats a flag.
pub open spec fn first_repeat(args: Seq<ArgSpec>, i: int) -> bool {
    &&& 0 <= i < args.len()
    &&& repeats_flag(args, i)
    &&& forall|j: int| 0 <= j < i ==> !#[trigger] repeats_flag(args, j)
}

/// The error reported for a repeat at the `i`th argument: its long flag when
/// that is the one repeated (it is checked first), else its short flag.
pub open spec fn repeat_error(args: Seq<ArgSpec>, i: int, e: Error) -> bool {
    if long_repeated(args, i) {
        e matches Error::DuplicateFlag(l) && l@ == args[i].long.unwrap()@
    } else {
        e == Error::DuplicateShortFlag(args[i].short.unwrap())
    }
}

/// The argument stands for the help flag: short `h` or long `help`.
pub open spec fn marks_help(a: ArgSpec) -> bool {
    a.short == Some('h') || a.long.deep_view() == Some("help"@)
}

/// The argument stands for the version flag: short `V` or long `version`.
pub open spec fn marks_version(a: ArgSpec) -> bool {
    a.short == Some('V') || a.long.deep_view() == Some("version"@)
}

/// Some argument stands for the help flag.
pub open spec fn defines_help(args: Seq<ArgSpec>) -> bool {
    exists|i: int| 0 <= i < args.len() && #[trigger] marks_help(args[i])
}

/// Some argument stands for the version flag.
pub open spec fn defines_version(args: Seq<ArgSpec>) -> bool {
    exists|i: int| 0 <= i < args.len() && #[trigger] marks_version(args[i])
}

/// Some argument with the same id as `a` is an option.
pub open spec fn listed_as_opt(args: Seq<ArgSpec>, a: ArgSpec) -> bool {
    exists|j: int| 0 <= j < args.len() && #[trigger] args[j].is_opt() && args[j].id@ == a.id@
}

/// The flag entry made for an argument.
pub open spec fn flag_view(a: ArgSpec) -> FlagView {
    let help = help_with_values_text(a);
    FlagView {
        short: match a.short {
            Some(c) => Some(short_flag_text(c)),
            None => None,
        },
        long: match a.long {
            Some(l) => Some(long_flag_text(l@)),
            None => None,
        },
        help: if help.len() == 0 {
            None
        } else {
            Some(help)
        },
    }
}

/// The flag entry made for an argument of `args`, if it is listed as an
/// option there.
pub open spec fn listed_flag(args: Seq<ArgSpec>, a: ArgSpec) -> Option<FlagView> {
    if listed_as_opt(args, a) {
        Some(flag_view(a))
    } else {
        None
    }
}

/// The flag entries of the command's options, in the order of its arguments.
pub open spec fn option_flags(args: Seq<ArgSpec>) -> Seq<FlagView> {
    args.filter_map(|a: ArgSpec| listed_flag(args, a))
}

/// The standard help flag.
pub open spec fn help_flag() -> FlagView {
    FlagView {
        short: Some("-h"@),
        long: Some("--help"@),
        help: Some("Print help (see a summary with '-h')"@),
    }
}

/// The standard version flag.
pub open spec fn version_flag() -> FlagView {
    FlagView { short: Some("-V"@), long: Some("--version"@), help: Some("Print version"@) }
}

/// The standard flags that the command does not define itself.
pub open spec fn default_flags(args: Seq<ArgSpec>) -> Seq<FlagView> {
    (if defines_help(args) {
        Seq::empty()
    } else {
        seq![help_flag()]
    }) + (if defines_version(args) {
        Seq::empty()
    } else {
        seq![version_flag()]
    })
}

/// All the flag entries a command adds: its options, then the standard
/// flags it does not define.
pub open spec fn command_flags(args: Seq<ArgSpec>) -> Seq<FlagView> {
    option_flags(args) + default_flags(args)
}

/// Whether some argument before the `i`th has the long flag `long`.
fn long_used_before(args: &Vec<ArgSpec>, i: usize, long: &String) -> (res: bool)
    requires
        i <= args@.len(),
    ensures
        res == exists|j: int| 0 <= j < i && #[trigger] args@[j].long.deep_view() == Some(long@),
{
    let mut j: usize = 0;
    while j < i
        invariant
            i <= args@.len(),
            0 <= j <= i,
            forall|k: int| 0 <= k < j ==> #[trigger] args@[k].long.deep_view() != Some(long@),
        decreases i - j,
    {
        match &args[j].long {
            Some(l) => {
                if *l == *long {
                    assert(args@[j as int].long.deep_view() == Some(long@));
                    return true;
                }
            },
            None => {},
        }
        j = j + 1;
    }
    false
}

/// Whether some argument before the `i`th has the short flag `short`.
fn short_used_before(args: &Vec<ArgSpec>, i: usize, short: char) -> (res: bool)
    requires
        i <= args@.len(),
    ensures
        res == exists|j: int| 0 <= j < i && #[trigger] args@[j].short == Some(short),
{
    let mut j: usize = 0;
    while j < i
        invariant
            i <= args@.len(),
            0 <= j <= i,
            forall|k: int| 0 <= k < j ==> #[trigger] args@[k].short != Some(short),
        decreases i - j,
    {
        match args[j].short {
            Some(c) => {
                if c == short {
                    return true;
                }
            },
            None => {},
        }
        j = j + 1;
    }
    false
}

/// Whether some argument of `args` with the id `id` is an option.
fn has_opt_with_id(args: &Vec<ArgSpec>, id: &String) -> (res: bool)
    ensures
        res == exists|j: int| 0 <= j < args@.len() && #[trigger] args@[j].is_opt() && args@[j].id@ == id@,
{
    let mut j: usize = 0;
    while j < args.len()
        invariant
            0 <= j <= args@.len(),
            forall|k: int| 0 <= k < j ==> !(#[trigger] args@[k].is_opt() && args@[k].id@ == id@),
        decreases args@.len() - j,
    {
        if args[j].opt() && args[j].id == *id {
            return true;
        }
        j = j + 1;
    }
    false
}

/// Whether the text is `word`.
fn is_word(s: &String, word: &str) -> (res: bool)
    ensures
        res == (s@ == word@),
{
    *s == String::from_str(word)
}

/// Whether the argument stands for the help flag.
fn arg_marks_help(a: &ArgSpec) -> (res: bool)
    ensures
        res == marks_help(*a),
{
    let short_h = match a.short {
        Some(c) => c == 'h',
        None => false,
    };
    let long_help = match &a.long {
        Some(l) => is_word(l, "help"),
        None => false,
    };
    short_h || long_help
}

/// Whether the argument stands for the version flag.
fn arg_marks_version(a: &ArgSpec) -> (res: bool)
    ensures
        res == marks_version(*a),
{
    let short_v = match a.short {
        Some(c) => c == 'V',
        None => false,
    };
    let long_version = match &a.long {
        Some(l) => is_word(l, "version"),
        None => false,
    };
    short_v || long_version
}

/// The flag entry made for an argument.
fn make_flag(a: &ArgSpec) -> (res: FlagEntry)
    ensures
        res@ == flag_view(*a),
{
    let short = match a.short {
        Some(c) => {
            let mut s = String::new();
            push_char(&mut s, '-');
            push_char(&mut s, c);
            assert(s@ =~= short_flag_text(c));
            Some(s)
        },
        None => None,
    };
    let long = match &a.long {
        Some(l) => {
            let mut s = String::new();
            push_char(&mut s, '-');
            push_char(&mut s, '-');
            s.append(l.as_str());
            assert(s@ =~= long_flag_text(l@));
            Some(s)
        },
        None => None,
    };
    let help = help_with_possible_values(a);
    let help = if help.as_str().is_empty() {
        None
    } else {
        Some(help)
    };
    FlagEntry { short, long, help }
}

/// Fills the "flags" section with all the options from the given command.
///
/// If the command doesn't already define `-h`/`--help` or `-V`/`--version`,
/// the standard defaults are added.
///
/// Fails on the first argument, in order, whose long or short flag was
/// already used by an earlier argument (the long flag is checked first).
pub fn fill_flags(cmd: &CommandSpec, manpage: ManualPage) -> (res: Result<ManualPage, Error>)
    ensures
        res is Ok <==> flags_distinct(cmd.args@),
        res matches Err(e) ==> exists|i: int| first_repeat(cmd.args@, i) && repeat_error(cmd.args@, i, e),
        res matches Ok(m) ==> m@ == manpage@.with_flags(command_flags(cmd.args@)),
{
    let ghost args = cmd.args@;
    let ghost f = |a: ArgSpec| listed_flag(args, a);
    let ghost start = manpage@;
    let mut manpage = manpage;
    let mut has_help = false;
    let mut has_version = false;
    let n = cmd.args.len();
    let mut i: usize = 0;
    while i < n
        invariant
            n == args.len(),
            args == cmd.args@,
            f == (|a: ArgSpec| listed_flag(args, a)),
            0 <= i <= n,
            forall|k: int| 0 <= k < i ==> !#[trigger] repeats_flag(args, k),
            has_help == exists|k: int| 0 <= k < i && #[trigger] marks_help(args[k]),
            has_version == exists|k: int| 0 <= k < i && #[trigger] marks_version(args[k]),
            manpage@ == start.with_flags(args.take(i as int).filter_map(f)),
        decreases n - i,
    {
        proof {
            args.lemma_filter_map_take_succ(f, i as int);
        }
        let a = &cmd.args[i];
        match &a.long {
            Some(l) => {
                if long_used_before(&cmd.args, i, l) {
                    assert(first_repeat(args, i as int));
                    return Err(Error::DuplicateFlag(l.clone()));
                }
            },
            None => {},
        }
        assert(!long_repeated(args, i as int));
        match a.short {
            Some(c) => {
                if short_used_before(&cmd.args, i, c) {
                    assert(first_repeat(args, i as int));
                    return Err(Error::DuplicateShortFlag(c));
                }
            },
            None => {},
        }
        assert(!repeats_flag(args, i as int));
        if arg_marks_help(a) {
            has_help = true;
        }
        if arg_marks_version(a) {
            has_version = true;
        }
        let ghost prev = manpage@;
        assert(f(args[i as int]) == listed_flag(args, *a));
        if has_opt_with_id(&cmd.args, &a.id) {
            let flag = make_flag(a);
            let ghost prev_vec = manpage.flags@;
            manpage.flags.push(flag);
            assert(manpage.flags@ =~= prev_vec.push(flag));
            assert(manpage@.flags =~= prev.flags.push(flag_view(*a)));
        }
        assert(manpage@.flags =~= start.flags + args.take(i + 1).filter_map(f));
        i = i + 1;
    }
    assert(args.take(n as int) =~= args);
    let ghost with_options = manpage@;
    if !has_help {
        let flag = FlagEntry {
            short: Some(String::from_str("-h")),
            long: Some(String::from_str("--help")),
            help: Some(String::from_str("Print help (see a summary with '-h')")),
        };
        let ghost prev_vec = manpage.flags@;
        manpage.flags.push(flag);
        assert(manpage.flags@ =~= prev_vec.push(flag));
        assert(manpage@.flags =~= with_options.flags.push(help_flag()));
    }
    let ghost with_help = manpage@;
    if !has_version {
        let flag = FlagEntry {
            short: Some(String::from_str("-V")),
            long: Some(String::from_str("--version")),
            help: Some(String::from_str("Print version")),
        };
        let ghost prev_vec = manpage.flags@;
        manpage.flags.push(flag);
        assert(manpage.flags@ =~= prev_vec.push(flag));
        assert(manpage@.flags =~= with_help.flags.push(version_flag()));
    }
    assert(has_help == defines_help(args));
    assert(has_version == defines_version(args));
    assert(manpage@.flags =~= start.flags + command_flags(args));
    Ok(manpage)
}

/// The synopsis argument of a positional argument: its id.
pub open spec fn positional_id(a: ArgSpec) -> Option<Seq<char>> {
    if a.is_positional() {
        Some(a.id@)
    } else {
        None
    }
}

/// The entry of a positional argument in the ARGUMENTS section.
pub open spec fn positional_paragraph(a: ArgSpec) -> Option<Seq<char>> {
    if a.is_positional() {
        positional_entry_text(a)
    } else {
        None
    }
}

/// The ids of the positional arguments, in order.
pub open spec fn positional_ids(args: Seq<ArgSpec>) -> Seq<Seq<char>> {
    args.filter_map(|a: ArgSpec| positional_id(a))
}

/// The entries of the positional arguments that have any help or possible
/// values, in order.
pub open spec fn positional_paragraphs(args: Seq<ArgSpec>) -> Seq<Seq<char>> {
    args.filter_map(|a: ArgSpec| positional_paragraph(a))
}

/// The page with the command's positional arguments added: their ids to the
/// synopsis and, when one of them has an entry, an ARGUMENTS section.
pub open spec fn with_positionals(page: ManualView, args: Seq<ArgSpec>) -> ManualView {
    let page = page.with_arguments(positional_ids(args));
    let paragraphs = positional_paragraphs(args);
    if paragraphs.len() == 0 {
        page
    } else {
        page.with_section(SectionView { name: "arguments"@, paragraphs })
    }
}

/// Add the positional arguments.
pub fn fill_positionals(cmd: &CommandSpec, manpage: ManualPage) -> (res: Result<ManualPage, Error>)
    ensures
        res matches Ok(m) && m@ == with_positionals(manpage@, cmd.args@),
{
    let ghost args = cmd.args@;
    let ghost fi = |a: ArgSpec| positional_id(a);
    let ghost fp = |a: ArgSpec| positional_paragraph(a);
    let ghost start = manpage@;
    let mut manpage = manpage;
    let mut paragraphs: Vec<String> = Vec::new();
    let mut arguments_found = false;
    let n = cmd.args.len();
    let mut i: usize = 0;
    while i < n
        invariant
            n == args.len(),
            args == cmd.args@,
            fi == (|a: ArgSpec| positional_id(a)),
            fp == (|a: ArgSpec| positional_paragraph(a)),
            0 <= i <= n,
            manpage@ == start.with_arguments(args.take(i as int).filter_map(fi)),
            paragraphs.deep_view() == args.take(i as int).filter_map(fp),
            arguments_found == (paragraphs@.len() > 0),
        decreases n - i,
    {
        proof {
            args.lemma_filter_map_take_succ(fi, i as int);
            args.lemma_filter_map_take_succ(fp, i as int);
        }
        let a = &cmd.args[i];
        if a.positional() {
            let ghost prev = manpage.arguments.deep_view();
            manpage.arguments.push(a.id.clone());
            assert(manpage.arguments.deep_view() =~= prev.push(a.id@));
            match positional_entry(a) {
                Some(entry) => {
                    arguments_found = true;
                    let ghost before = paragraphs.deep_view();
                    paragraphs.push(entry);
                    assert(paragraphs.deep_view() =~= before.push(entry@));
                },
                None => {},
            }
        }
        assert(manpage@.arguments =~= start.arguments + args.take(i + 1).filter_map(fi));
        assert(paragraphs.deep_view() =~= args.take(i + 1).filter_map(fp));
        i = i + 1;
    }
    assert(args.take(n as int) =~= args);
    if arguments_found {
        let section = PageSection { name: String::from_str("arguments"), paragraphs };
        let ghost prev = manpage@;
        let ghost prev_vec = manpage.sections@;
        manpage.sections.push(section);
        assert(manpage.sections@ =~= prev_vec.push(section));
        assert(manpage@.sections =~= prev.sections.push(section@));
    }
    Ok(manpage)
}

/// The heading of a subcommand's subsection: `.SS` and its name, then its
/// about text on a line of its own when it has one.
pub open spec fn subcommand_heading(sub: CommandSpec) -> Seq<char> {
    match sub.about {
        Some(about) => ".SS "@ + sub.name@ + seq!['\n'] + about@,
        None => ".SS "@ + sub.name@,
    }
}

/// The entry of a visible option of a subcommand.
pub open spec fn shown_opt_entry(a: ArgSpec) -> Option<Seq<char>> {
    if a.is_opt() && !a.hidden {
        flag_entry_text(a)
    } else {
        None
    }
}

/// The entry of a visible positional argument of a subcommand.
pub open spec fn shown_positional_entry(a: ArgSpec) -> Option<Seq<char>> {
    if a.is_positional() && !a.hidden {
        positional_entry_text(a)
    } else {
        None
    }
}

/// The paragraphs of a subcommand's subsection: its heading, then the
/// entries of its visible options, then those of its visible positional
/// arguments.
pub open spec fn subcommand_paragraphs(sub: CommandSpec) -> Seq<Seq<char>> {
    seq![subcommand_heading(sub)]
        + sub.args@.filter_map(|a: ArgSpec| shown_opt_entry(a))
        + sub.args@.filter_map(|a: ArgSpec| shown_positional_entry(a))
}

/// The paragraphs of the SUBCOMMANDS section: those of each visible
/// subcommand, in order.
pub open spec fn subcommands_text(subs: Seq<CommandSpec>) -> Seq<Seq<char>>
    decreases subs.len(),
{
    if subs.len() == 0 {
        Seq::empty()
    } else if subs.last().hidden {
        subcommands_text(subs.drop_last())
    } else {
        subcommands_text(subs.drop_last()) + subcommand_paragraphs(subs.last())
    }
}

/// The page with a SUBCOMMANDS section added when some subcommand is
/// visible.
pub open spec fn with_subcommands(page: ManualView, subs: Seq<CommandSpec>) -> ManualView {
    let paragraphs = subcommands_text(subs);
    if paragraphs.len() == 0 {
        page
    } else {
        page.with_section(SectionView { name: "subcommands"@, paragraphs })
    }
}

/// Append the paragraphs of a visible subcommand's subsection.
fn push_subcommand_paragraphs(sub: &CommandSpec, paragraphs: &mut Vec<String>)
    ensures
        final(paragraphs).deep_view() == old(paragraphs).deep_view() + subcommand_paragraphs(*sub),
{
    let ghost start = paragraphs.deep_view();
    let mut heading = String::from_str(".SS ");
    heading.append(sub.name.as_str());
    match &sub.about {
        Some(about) => {
            push_char(&mut heading, '\n');
            heading.append(about.as_str());
        },
        None => {},
    }
    assert(heading@ =~= subcommand_heading(*sub));
    paragraphs.push(heading);
    assert(paragraphs.deep_view() =~= start + seq![subcommand_heading(*sub)]);
    let ghost args = sub.args@;
    let ghost fo = |a: ArgSpec| shown_opt_entry(a);
    let ghost fp = |a: ArgSpec| shown_positional_entry(a);
    let ghost head = paragraphs.deep_view();
    let n = sub.args.len();
    let mut i: usize = 0;
    while i < n
        invariant
            n == args.len(),
            args == sub.args@,
            fo == (|a: ArgSpec| shown_opt_entry(a)),
            0 <= i <= n,
            paragraphs.deep_view() == head + args.take(i as int).filter_map(fo),
        decreases n - i,
    {
        proof {
            args.lemma_filter_map_take_succ(fo, i as int);
        }
        let a = &sub.args[i];
        if a.opt() && !a.hidden {
            match flag_entry(a) {
                Some(entry) => {
                    let ghost before = paragraphs.deep_view();
                    paragraphs.push(entry);
                    assert(paragraphs.deep_view() =~= before.push(entry@));
                },
                None => {},
            }
        }
        assert(paragraphs.deep_view() =~= head + args.take(i + 1).filter_map(fo));
        i = i + 1;
    }
    assert(args.take(n as int) =~= args);
    let ghost mid = paragraphs.deep_view();
    let mut i: usize = 0;
    while i < n
        invariant
            n == args.len(),
            args == sub.args@,
            fp == (|a: ArgSpec| shown_positional_entry(a)),
            0 <= i <= n,
            paragraphs.deep_view() == mid + args.take(i as int).filter_map(fp),
        decreases n - i,
    {
        proof {
            args.lemma_filter_map_take_succ(fp, i as int);
        }
        let a = &sub.args[i];
        if a.positional() && !a.hidden {
            match positional_entry(a) {
                Some(entry) => {
                    let ghost before = paragraphs.deep_view();
                    paragraphs.push(entry);
                    assert(paragraphs.deep_view() =~= before.push(entry@));
                },
                None => {},
            }
        }
        assert(paragraphs.deep_view() =~= mid + args.take(i + 1).filter_map(fp));
        i = i + 1;
    }
    assert(paragraphs.deep_view() =~= start + subcommand_paragraphs(*sub));
}

/// Add the subcommands to a "SUBCOMMANDS" section.
///
/// Each visible subcommand is rendered as its own subsection (roff `.SS`)
/// containing the about text, followed by the subcommand's visible options
/// and positional arguments as tagged lists.
pub fn fill_subcommands(cmd: &CommandSpec, manpage: ManualPage) -> (res: Result<ManualPage, Error>)
    ensures
        res matches Ok(m) && m@ == with_subcommands(manpage@, cmd.subcommands@),
{
    let ghost subs = cmd.subcommands@;
    let mut paragraphs: Vec<String> = Vec::new();
    let mut subcommands_found = false;
    let n = cmd.subcommands.len();
    let mut i: usize = 0;
    while i < n
        invariant
            n == subs.len(),
            subs == cmd.subcommands@,
            0 <= i <= n,
            paragraphs.deep_view() == subcommands_text(subs.take(i as int)),
            subcommands_found == (paragraphs@.len() > 0),
        decreases n - i,
    {
        assert(subs.take(i + 1).drop_last() =~= subs.take(i as int));
        let sub = &cmd.subcommands[i];
        assert(subs.take(i + 1).last() == *sub);
        if !sub.hidden {
            subcommands_found = true;
            push_subcommand_paragraphs(sub, &mut paragraphs);
            assert(paragraphs.deep_view().len() == paragraphs@.len());
        }
        i = i + 1;
    }
    assert(subs.take(n as int) =~= subs);
    let mut manpage = manpage;
    if subcommands_found {
        let section = PageSection { name: String::from_str("subcommands"), paragraphs };
        let ghost prev = manpage@;
        let ghost prev_vec = manpage.sections@;
        manpage.sections.push(section);
        assert(manpage.sections@ =~= prev_vec.push(section));
        assert(manpage@.sections =~= prev.sections.push(section@));
    }
    Ok(manpage)
}

/// The synopsis line of a subcommand, nothing for a hidden one.
pub open spec fn shown_synopsis_line(name: Seq<char>, sub: CommandSpec) -> Option<Seq<char>> {
    if sub.hidden {
        None
    } else {
        Some(synopsis_line_text(name, sub))
    }
}

/// The synopsis lines of the visible subcommands of the command, in order.
pub open spec fn synopsis_lines(cmd: CommandSpec) -> Seq<Seq<char>> {
    cmd.subcommands@.filter_map(|sub: CommandSpec| shown_synopsis_line(cmd.title(), sub))
}

/// Add a SYNOPSIS line for each visible subcommand, containing its options
/// and positional arguments.
///
/// The extra lines are added as synthetic argument entries, which the man
/// page renders inside the SYNOPSIS section.
pub fn fill_synopsis(cmd: &CommandSpec, manpage: ManualPage) -> (res: Result<ManualPage, Error>)
    ensures
        res matches Ok(m) && m@ == manpage@.with_arguments(synopsis_lines(*cmd)),
{
    let name = cmd.title_name();
    let ghost subs = cmd.subcommands@;
    let ghost f = |sub: CommandSpec| shown_synopsis_line(cmd.title(), sub);
    let ghost start = manpage@;
    let mut manpage = manpage;
    let n = cmd.subcommands.len();
    let mut i: usize = 0;
    while i < n
        invariant
            n == subs.len(),
            subs == cmd.subcommands@,
            name@ == cmd.title(),
            f == (|sub: CommandSpec| shown_synopsis_line(cmd.title(), sub)),
            0 <= i <= n,
            manpage@ == start.with_arguments(subs.take(i as int).filter_map(f)),
        decreases n - i,
    {
        proof {
            subs.lemma_filter_map_take_succ(f, i as int);
        }
        let sub = &cmd.subcommands[i];
        if !sub.hidden {
            let line = synopsis_line(name.as_str(), sub);
            let ghost prev = manpage.arguments.deep_view();
            manpage.arguments.push(line);
            assert(manpage.arguments.deep_view() =~= prev.push(line@));
        }
        assert(manpage@.arguments =~= start.arguments + subs.take(i + 1).filter_map(f));
        i = i + 1;
    }
    assert(subs.take(n as int) =~= subs);
    Ok(manpage)
}

} // verus!
