//! Properties of the library as a whole.

use vstd::prelude::*;

use crate::command::{ArgSpec, CommandSpec, PossibleValueSpec};
use crate::entry::{
    flag_entry_text, flag_names, help_text, help_with_values_text, positional_entry_text,
    possible_value_text, possible_values_text, shown_value_text, shown_values,
    synopsis_line_text,
};
use crate::fill::{
    default_flags, defines_help, defines_version, flags_distinct, help_flag, long_repeated,
    repeats_flag, short_repeated, shown_synopsis_line, subcommand_paragraphs, subcommands_text,
    synopsis_lines, version_flag,
    with_positionals, with_subcommands,
};
use crate::manual::ManualView;

verus! {

/// An option gets an entry exactly when it has a short or a long flag.
pub proof fn flag_entry_needs_a_flag(a: ArgSpec)
    ensures
        flag_entry_text(a) is None <==> (a.short is None && a.long is None),
{
    assert(flag_names(a).len() == 0 <==> (a.short is None && a.long is None));
}

/// The possible values line is empty exactly when no possible value is
/// visible.
pub proof fn possible_values_line_empty(a: ArgSpec)
    ensures
        possible_values_text(a).len() == 0 <==> shown_values(a).len() == 0,
{
    reveal_strlit(".br\nPossible values: ");
}

/// The possible values line lists the visible possible values, in order, and
/// no hidden one.
pub proof fn possible_values_are_the_visible_ones(a: ArgSpec)
    ensures
        shown_values(a) == a.possible_values@.filter(|pv: PossibleValueSpec| !pv.hidden).map_values(
            |pv: PossibleValueSpec| possible_value_text(pv),
        ),
{
    filter_map_is_filter_then_map(
        a.possible_values@,
        |pv: PossibleValueSpec| !pv.hidden,
        |pv: PossibleValueSpec| possible_value_text(pv),
        |pv: PossibleValueSpec| shown_value_text(pv),
    );
}

/// There is one synopsis line per visible subcommand, in order.
pub proof fn one_synopsis_line_per_visible_subcommand(cmd: CommandSpec)
    ensures
        synopsis_lines(cmd) == cmd.subcommands@.filter(|sub: CommandSpec| !sub.hidden).map_values(
            |sub: CommandSpec| synopsis_line_text(cmd.title(), sub),
        ),
{
    filter_map_is_filter_then_map(
        cmd.subcommands@,
        |sub: CommandSpec| !sub.hidden,
        |sub: CommandSpec| synopsis_line_text(cmd.title(), sub),
        |sub: CommandSpec| shown_synopsis_line(cmd.title(), sub),
    );
}

/// Keeping the elements that pass `p` and mapping them by `f` is the same as
/// the `filter_map` by `g`, when `g` gives `f` of the elements that pass `p`
/// and nothing for the others.
proof fn filter_map_is_filter_then_map<A, B>(
    s: Seq<A>,
    p: spec_fn(A) -> bool,
    f: spec_fn(A) -> B,
    g: spec_fn(A) -> Option<B>,
)
    requires
        forall|x: A| #[trigger] g(x) == if p(x) {
            Some(f(x))
        } else {
            None
        },
    ensures
        s.filter_map(g) == s.filter(p).map_values(f),
    decreases s.len(),
{
    reveal(Seq::filter);
    if s.len() > 0 {
        filter_map_is_filter_then_map(s.drop_last(), p, f, g);
    }
    assert(s.filter_map(g) =~= s.filter(p).map_values(f));
}

/// A positional argument gets an entry exactly when it has a help text or a
/// visible possible value.
pub proof fn positional_entry_needs_text(a: ArgSpec)
    ensures
        positional_entry_text(a) is None <==> (help_text(a).len() == 0 && shown_values(a).len() == 0),
{
    possible_values_line_empty(a);
    assert(help_with_values_text(a).len() == 0 <==> (help_text(a).len() == 0
        && possible_values_text(a).len() == 0));
}

/// Flag conversion fails exactly when two arguments share a long flag or a
/// short flag.
pub proof fn repeated_flag_iff_shared(args: Seq<ArgSpec>)
    ensures
        !flags_distinct(args) <==> exists|i: int, j: int|
            0 <= j < i < args.len() && ((args[i].long is Some && args[j].long.deep_view()
                == args[i].long.deep_view()) || (args[i].short is Some && args[j].short
                == args[i].short)),
{
    if !flags_distinct(args) {
        let i = choose|i: int| 0 <= i < args.len() && #[trigger] repeats_flag(args, i);
        if long_repeated(args, i) {
            let j = choose|j: int|
                0 <= j < i && #[trigger] args[j].long.deep_view() == args[i].long.deep_view();
            assert(0 <= j < i < args.len());
        } else {
            let j = choose|j: int| 0 <= j < i && #[trigger] args[j].short == args[i].short;
            assert(0 <= j < i < args.len());
        }
    }
    if exists|i: int, j: int|
        0 <= j < i < args.len() && ((args[i].long is Some && args[j].long.deep_view()
            == args[i].long.deep_view()) || (args[i].short is Some && args[j].short
            == args[i].short))
    {
        let (i, j) = choose|i: int, j: int|
            0 <= j < i < args.len() && ((args[i].long is Some && args[j].long.deep_view()
                == args[i].long.deep_view()) || (args[i].short is Some && args[j].short
                == args[i].short));
        assert(repeats_flag(args, i));
    }
}

/// The standard help flag is added exactly when no argument stands for help,
/// the standard version flag exactly when none stands for the version, each
/// at most once.
pub proof fn standard_flags_fill_gaps(args: Seq<ArgSpec>)
    ensures
        default_flags(args).contains(help_flag()) <==> !defines_help(args),
        default_flags(args).contains(version_flag()) <==> !defines_version(args),
        default_flags(args).len() == (if defines_help(args) {
            0int
        } else {
            1int
        }) + (if defines_version(args) {
            0int
        } else {
            1int
        }),
{
    reveal_strlit("-h");
    reveal_strlit("-V");
    assert("-h"@[1] != "-V"@[1]);
    assert(help_flag().short != version_flag().short);
    let d = default_flags(args);
    if !defines_help(args) {
        assert(d[0] == help_flag());
    }
    if !defines_version(args) {
        assert(d[d.len() - 1] == version_flag());
    }
}

/// Hidden subcommands leave no trace in the SUBCOMMANDS section: it is what
/// the visible subcommands alone give.
pub proof fn hidden_subcommands_ignored(subs: Seq<CommandSpec>)
    ensures
        subcommands_text(subs) == subcommands_text(subs.filter(|s: CommandSpec| !s.hidden)),
    decreases subs.len(),
{
    reveal(Seq::filter);
    if subs.len() > 0 {
        hidden_subcommands_ignored(subs.drop_last());
        let rest = subs.drop_last().filter(|s: CommandSpec| !s.hidden);
        if !subs.last().hidden {
            assert(rest.push(subs.last()).drop_last() =~= rest);
        }
    }
}

/// The SUBCOMMANDS section is there exactly when some subcommand is
/// visible.
pub proof fn subcommands_section_iff_visible(page: ManualView, subs: Seq<CommandSpec>)
    ensures
        with_subcommands(page, subs).sections.len() == page.sections.len() + (if exists|i: int|
            0 <= i < subs.len() && !(#[trigger] subs[i]).hidden {
            1int
        } else {
            0int
        }),
{
    some_paragraphs_iff_visible(subs);
}

proof fn some_paragraphs_iff_visible(subs: Seq<CommandSpec>)
    ensures
        subcommands_text(subs).len() > 0 <==> exists|i: int|
            0 <= i < subs.len() && !(#[trigger] subs[i]).hidden,
    decreases subs.len(),
{
    if subs.len() > 0 {
        some_paragraphs_iff_visible(subs.drop_last());
        assert(subcommand_paragraphs(subs.last()).len() > 0);
        if exists|i: int| 0 <= i < subs.drop_last().len() && !(#[trigger] subs.drop_last()[i]).hidden {
            let i = choose|i: int|
                0 <= i < subs.drop_last().len() && !(#[trigger] subs.drop_last()[i]).hidden;
            assert(!subs[i].hidden);
        }
        if exists|i: int| 0 <= i < subs.len() && !(#[trigger] subs[i]).hidden {
            let i = choose|i: int| 0 <= i < subs.len() && !(#[trigger] subs[i]).hidden;
            if i < subs.len() - 1 {
                assert(!subs.drop_last()[i].hidden);
            }
        }
    }
}

/// Filling keeps what the page already held: its name, and its authors,
/// flags, synopsis arguments and sections as the first entries of the new
/// lists.
pub open spec fn keeps(before: ManualView, after: ManualView) -> bool {
    &&& after.name == before.name
    &&& before.authors.is_prefix_of(after.authors)
    &&& before.flags.is_prefix_of(after.flags)
    &&& before.arguments.is_prefix_of(after.arguments)
    &&& before.sections.is_prefix_of(after.sections)
}

/// Each of the filling steps only adds to the lists of the page it is given,
/// and keeps its name.
pub proof fn filling_keeps_the_page(page: ManualView, cmd: CommandSpec, text: Seq<char>)
    ensures
        keeps(page, page.with_about(text)),
        keeps(page, page.with_description(text)),
        keeps(page, page.with_author(text)),
        keeps(page, page.with_flags(crate::fill::command_flags(cmd.args@))),
        keeps(page, with_positionals(page, cmd.args@)),
        keeps(page, with_subcommands(page, cmd.subcommands@)),
        keeps(page, page.with_arguments(crate::fill::synopsis_lines(cmd))),
{
    let p = with_positionals(page, cmd.args@);
    let q = page.with_arguments(crate::fill::positional_ids(cmd.args@));
    assert(page.arguments.is_prefix_of(q.arguments));
    assert(page.sections.is_prefix_of(p.sections));
    assert(page.flags.is_prefix_of(page.with_flags(crate::fill::command_flags(cmd.args@)).flags));
    assert(page.arguments.is_prefix_of(page.with_arguments(crate::fill::synopsis_lines(cmd)).arguments));
    assert(page.authors.is_prefix_of(page.with_author(text).authors));
    assert(page.sections.is_prefix_of(with_subcommands(page, cmd.subcommands@).sections));
}

/// The FLAGS section gets the standard help flag exactly when no argument
/// has the short flag `h` or the long flag `help`, and the standard version
/// flag exactly when no argument has the short flag `V` or the long flag
/// `version`; they come after the options' flags, help first.
pub proof fn standard_flags_exactly_when_undefined(args: Seq<ArgSpec>)
    ensures
        crate::fill::command_flags(args) == crate::fill::option_flags(args) + (if exists|i: int|
            0 <= i < args.len() && ((#[trigger] args[i]).short == Some('h')
                || args[i].long.deep_view() == Some("help"@)) {
            Seq::empty()
        } else {
            seq![
                crate::manual::FlagView {
                    short: Some("-h"@),
                    long: Some("--help"@),
                    help: Some("Print help (see a summary with '-h')"@),
                },
            ]
        }) + (if exists|i: int|
            0 <= i < args.len() && ((#[trigger] args[i]).short == Some('V')
                || args[i].long.deep_view() == Some("version"@)) {
            Seq::empty()
        } else {
            seq![
                crate::manual::FlagView {
                    short: Some("-V"@),
                    long: Some("--version"@),
                    help: Some("Print version"@),
                },
            ]
        }),
{
    if defines_help(args) {
        let i = choose|i: int| 0 <= i < args.len() && #[trigger] crate::fill::marks_help(args[i]);
        assert(args[i].short == Some('h') || args[i].long.deep_view() == Some("help"@));
    }
    if exists|i: int|
        0 <= i < args.len() && ((#[trigger] args[i]).short == Some('h') || args[i].long.deep_view()
            == Some("help"@))
    {
        let i = choose|i: int|
            0 <= i < args.len() && ((#[trigger] args[i]).short == Some('h')
                || args[i].long.deep_view() == Some("help"@));
        assert(crate::fill::marks_help(args[i]));
    }
    if defines_version(args) {
        let i = choose|i: int| 0 <= i < args.len() && #[trigger] crate::fill::marks_version(args[i]);
        assert(args[i].short == Some('V') || args[i].long.deep_view() == Some("version"@));
    }
    if exists|i: int|
        0 <= i < args.len() && ((#[trigger] args[i]).short == Some('V') || args[i].long.deep_view()
            == Some("version"@))
    {
        let i = choose|i: int|
            0 <= i < args.len() && ((#[trigger] args[i]).short == Some('V')
                || args[i].long.deep_view() == Some("version"@));
        assert(crate::fill::marks_version(args[i]));
    }
}

/// Dropping the elements that fail `p` changes nothing of a `filter_map`
/// that gives nothing for them.
proof fn filter_map_skips_filtered<A, B>(s: Seq<A>, p: spec_fn(A) -> bool, g: spec_fn(A) -> Option<B>)
    requires
        forall|x: A| !p(x) ==> (#[trigger] g(x)) is None,
    ensures
        s.filter(p).filter_map(g) == s.filter_map(g),
    decreases s.len(),
{
    reveal(Seq::filter);
    if s.len() > 0 {
        filter_map_skips_filtered(s.drop_last(), p, g);
        let rest = s.drop_last().filter(p);
        if p(s.last()) {
            assert(rest.push(s.last()).drop_last() =~= rest);
        }
    }
}

/// `filter_map` by `g` is `filter_map` by `h` over the elements that pass
/// `p`, when `g` gives `h` on those and nothing on the others.
proof fn filter_map_through_filter<A, B>(
    s: Seq<A>,
    p: spec_fn(A) -> bool,
    g: spec_fn(A) -> Option<B>,
    h: spec_fn(A) -> Option<B>,
)
    requires
        forall|x: A| #[trigger] g(x) == if p(x) {
            h(x)
        } else {
            None
        },
    ensures
        s.filter_map(g) == s.filter(p).filter_map(h),
    decreases s.len(),
{
    reveal(Seq::filter);
    if s.len() > 0 {
        filter_map_through_filter(s.drop_last(), p, g, h);
        let rest = s.drop_last().filter(p);
        if p(s.last()) {
            assert(rest.push(s.last()).drop_last() =~= rest);
        }
    }
    assert(s.filter_map(g) =~= s.filter(p).filter_map(h));
}

/// The subsection of a subcommand shows nothing of its hidden arguments:
/// it is the same as that of the subcommand with its hidden arguments
/// removed.
pub proof fn subcommand_ignores_hidden_args(sub: CommandSpec, shown: CommandSpec)
    requires
        shown.name@ == sub.name@,
        shown.about.deep_view() == sub.about.deep_view(),
        shown.args@ == sub.args@.filter(|a: ArgSpec| !a.hidden),
    ensures
        subcommand_paragraphs(sub) == subcommand_paragraphs(shown),
{
    let p = |a: ArgSpec| !a.hidden;
    filter_map_skips_filtered(sub.args@, p, |a: ArgSpec| crate::fill::shown_opt_entry(a));
    filter_map_skips_filtered(sub.args@, p, |a: ArgSpec| crate::fill::shown_positional_entry(a));
    assert(crate::fill::subcommand_heading(sub) == crate::fill::subcommand_heading(shown));
}

/// The SUBCOMMANDS section shows nothing of hidden arguments: it is the
/// same for two lists of subcommands that differ only in that the second
/// has the hidden arguments of the first removed.
pub proof fn subcommands_ignore_hidden_args(subs: Seq<CommandSpec>, shown: Seq<CommandSpec>)
    requires
        shown.len() == subs.len(),
        forall|i: int|
            0 <= i < subs.len() ==> {
                &&& (#[trigger] shown[i]).name@ == subs[i].name@
                &&& shown[i].about.deep_view() == subs[i].about.deep_view()
                &&& shown[i].hidden == subs[i].hidden
                &&& shown[i].args@ == subs[i].args@.filter(|a: ArgSpec| !a.hidden)
            },
    ensures
        subcommands_text(subs) == subcommands_text(shown),
    decreases subs.len(),
{
    if subs.len() > 0 {
        subcommands_ignore_hidden_args(subs.drop_last(), shown.drop_last());
        subcommand_ignores_hidden_args(subs.last(), shown.last());
    }
}

/// The synopsis line of a subcommand shows nothing of its hidden
/// arguments: it is the same as that of the subcommand with its hidden
/// arguments removed.
pub proof fn synopsis_ignores_hidden_args(name: Seq<char>, sub: CommandSpec, shown: CommandSpec)
    requires
        shown.name@ == sub.name@,
        shown.args@ == sub.args@.filter(|a: ArgSpec| !a.hidden),
    ensures
        synopsis_line_text(name, sub) == synopsis_line_text(name, shown),
{
    let p = |a: ArgSpec| !a.hidden;
    filter_map_skips_filtered(sub.args@, p, |a: ArgSpec| crate::entry::synopsis_opt_text(a));
    filter_map_skips_filtered(sub.args@, p, |a: ArgSpec| crate::entry::synopsis_positional_text(a));
}

/// Adding positional arguments appends to the synopsis the ids of the
/// arguments that have neither a short nor a long flag, in order; and the
/// ARGUMENTS section, present exactly when one of those has an entry, holds
/// the entries of those arguments (those with help or visible possible
/// values), in order, and of no other.
pub proof fn positionals_are_the_unflagged_args(page: ManualView, args: Seq<ArgSpec>)
    ensures
        ({
            let unflagged = args.filter(|a: ArgSpec| a.short is None && a.long is None);
            let entries = unflagged.filter_map(|a: ArgSpec| positional_entry_text(a));
            let after = with_positionals(page, args);
            &&& after.arguments == page.arguments + unflagged.map_values(|a: ArgSpec| a.id@)
            &&& after.sections == if entries.len() == 0 {
                page.sections
            } else {
                page.sections.push(
                    crate::manual::SectionView { name: "arguments"@, paragraphs: entries },
                )
            }
        }),
{
    let p = |a: ArgSpec| a.short is None && a.long is None;
    filter_map_is_filter_then_map(
        args,
        p,
        |a: ArgSpec| a.id@,
        |a: ArgSpec| crate::fill::positional_id(a),
    );
    filter_map_through_filter(
        args,
        p,
        |a: ArgSpec| crate::fill::positional_paragraph(a),
        |a: ArgSpec| positional_entry_text(a),
    );
}

/// An argument read from a `clap::Command` stores its value exactly when
/// its action is `Set` or `Append`; for every other action (`SetTrue`,
/// `SetFalse`, `Count`, ...) it does not.
pub proof fn stores_value_exactly_for_set_and_append(res: CommandSpec, cmd: clap::Command)
    requires
        crate::clap_input::read_from_command(res, cmd),
    ensures
        forall|i: int|
            0 <= i < res.args@.len() ==> (#[trigger] res.args@[i]).sets_value == (
            crate::clap_input::arg_action_of(crate::clap_input::command_arguments_of(cmd)[i]) is SetValue
                || crate::clap_input::arg_action_of(
                crate::clap_input::command_arguments_of(cmd)[i],
            ) is Append),
{
    assert forall|i: int| 0 <= i < res.args@.len() implies (#[trigger] res.args@[i]).sets_value == (
    crate::clap_input::arg_action_of(crate::clap_input::command_arguments_of(cmd)[i]) is SetValue
        || crate::clap_input::arg_action_of(crate::clap_input::command_arguments_of(cmd)[i]) is Append) by {
        assert(crate::clap_input::read_from_arg(
            res.args@[i],
            crate::clap_input::command_arguments_of(cmd)[i],
            crate::clap_input::option_ids_of(cmd),
        ));
    }
}

/// The options' flag entries are those of the arguments that have a short
/// or a long flag and whose id is that of an argument taking a value, in
/// order: `-c` for the short flag `c`, `--name` for the long flag `name`,
/// and the help with possible values when it is not empty.
pub proof fn option_flags_are_the_listed_options(args: Seq<ArgSpec>)
    ensures
        crate::fill::option_flags(args) == args.filter(
            |a: ArgSpec|
                exists|j: int|
                    0 <= j < args.len() && (#[trigger] args[j]).takes_value && (args[j].short is Some
                        || args[j].long is Some) && args[j].id@ == a.id@,
        ).map_values(
            |a: ArgSpec|
                crate::manual::FlagView {
                    short: match a.short {
                        Some(c) => Some(seq!['-', c]),
                        None => None,
                    },
                    long: match a.long {
                        Some(l) => Some(seq!['-', '-'] + l@),
                        None => None,
                    },
                    help: if help_with_values_text(a).len() == 0 {
                        None
                    } else {
                        Some(help_with_values_text(a))
                    },
                },
        ),
{
    assert forall|a: ArgSpec|
        crate::fill::listed_as_opt(args, a) == exists|j: int|
            0 <= j < args.len() && (#[trigger] args[j]).takes_value && (args[j].short is Some
                || args[j].long is Some) && args[j].id@ == a.id@ by {
        if crate::fill::listed_as_opt(args, a) {
            let j = choose|j: int|
                0 <= j < args.len() && #[trigger] args[j].is_opt() && args[j].id@ == a.id@;
            assert(args[j].takes_value);
        }
        if exists|j: int|
            0 <= j < args.len() && (#[trigger] args[j]).takes_value && (args[j].short is Some
                || args[j].long is Some) && args[j].id@ == a.id@
        {
            let j = choose|j: int|
                0 <= j < args.len() && (#[trigger] args[j]).takes_value && (args[j].short is Some
                    || args[j].long is Some) && args[j].id@ == a.id@;
            assert(args[j].is_opt());
        }
    }
    filter_map_is_filter_then_map(
        args,
        |a: ArgSpec|
            exists|j: int|
                0 <= j < args.len() && (#[trigger] args[j]).takes_value && (args[j].short is Some
                    || args[j].long is Some) && args[j].id@ == a.id@,
        |a: ArgSpec|
            crate::manual::FlagView {
                short: match a.short {
                    Some(c) => Some(seq!['-', c]),
                    None => None,
                },
                long: match a.long {
                    Some(l) => Some(seq!['-', '-'] + l@),
                    None => None,
                },
                help: if help_with_values_text(a).len() == 0 {
                    None
                } else {
                    Some(help_with_values_text(a))
                },
            },
        |a: ArgSpec| crate::fill::listed_flag(args, a),
    );
}

/// Flagged arguments that take no value (switches) leave no trace in a
/// synopsis line: it is the same as that of the subcommand without them.
pub proof fn synopsis_ignores_switches(name: Seq<char>, sub: CommandSpec, shown: CommandSpec)
    requires
        shown.name@ == sub.name@,
        shown.args@ == sub.args@.filter(
            |a: ArgSpec| a.takes_value || (a.short is None && a.long is None),
        ),
    ensures
        synopsis_line_text(name, sub) == synopsis_line_text(name, shown),
{
    let p = |a: ArgSpec| a.takes_value || (a.short is None && a.long is None);
    filter_map_skips_filtered(sub.args@, p, |a: ArgSpec| crate::entry::synopsis_opt_text(a));
    filter_map_skips_filtered(sub.args@, p, |a: ArgSpec| crate::entry::synopsis_positional_text(a));
}

/// Flagged arguments that take no value (switches) leave no trace in a
/// subcommand's subsection: it is the same as that of the subcommand
/// without them.
pub proof fn subcommand_ignores_switches(sub: CommandSpec, shown: CommandSpec)
    requires
        shown.name@ == sub.name@,
        shown.about.deep_view() == sub.about.deep_view(),
        shown.args@ == sub.args@.filter(
            |a: ArgSpec| a.takes_value || (a.short is None && a.long is None),
        ),
    ensures
        subcommand_paragraphs(sub) == subcommand_paragraphs(shown),
{
    let p = |a: ArgSpec| a.takes_value || (a.short is None && a.long is None);
    filter_map_skips_filtered(sub.args@, p, |a: ArgSpec| crate::fill::shown_opt_entry(a));
    filter_map_skips_filtered(sub.args@, p, |a: ArgSpec| crate::fill::shown_positional_entry(a));
    assert(crate::fill::subcommand_heading(sub) == crate::fill::subcommand_heading(shown));
}

} // verus!
