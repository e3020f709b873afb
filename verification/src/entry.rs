//! The roff text that describes one argument or one subcommand.

use vstd::prelude::*;

use crate::command::{ArgSpec, CommandSpec, PossibleValueSpec};
use crate::text::{bold, bold_text, concat_text, italic, italic_text, join, join_text, push_char, to_uppercase, uppercase_text};

verus! {

/// The text for one possible value: its name in bold, followed by its help
/// in parentheses when it has one.
pub open spec fn possible_value_text(pv: PossibleValueSpec) -> Seq<char> {
    match pv.help {
        Some(h) => bold_text(pv.name@) + " ("@ + h@ + ")"@,
        None => bold_text(pv.name@),
    }
}

/// The text for a possible value that is shown, nothing for a hidden one.
pub open spec fn shown_value_text(pv: PossibleValueSpec) -> Option<Seq<char>> {
    if pv.hidden {
        None
    } else {
        Some(possible_value_text(pv))
    }
}

/// The texts of the argument's visible possible values, in order.
pub open spec fn shown_values(a: ArgSpec) -> Seq<Seq<char>> {
    a.possible_values@.filter_map(|pv: PossibleValueSpec| shown_value_text(pv))
}

/// The roff line listing the visible possible values of the argument, or the
/// empty text when none is visible.
pub open spec fn possible_values_text(a: ArgSpec) -> Seq<char> {
    let values = shown_values(a);
    if values.len() == 0 {
        Seq::empty()
    } else {
        ".br\nPossible values: "@ + join_text(values, ", "@)
    }
}

/// The argument's help text, empty when it has none.
pub open spec fn help_text(a: ArgSpec) -> Seq<char> {
    match a.help {
        Some(h) => h@,
        None => Seq::empty(),
    }
}

/// The argument's help followed by its possible values line, with a line
/// break between the two when both are there.
pub open spec fn help_with_values_text(a: ArgSpec) -> Seq<char> {
    let help = help_text(a);
    let values = possible_values_text(a);
    if values.len() == 0 {
        help
    } else if help.len() == 0 {
        values
    } else {
        help + seq!['\n'] + values
    }
}

/// `-c` for the short flag `c`.
pub open spec fn short_flag_text(c: char) -> Seq<char> {
    seq!['-', c]
}

/// `--name` for the long flag `name`.
pub open spec fn long_flag_text(name: Seq<char>) -> Seq<char> {
    seq!['-', '-'] + name
}

/// The argument's flags in bold: the short one first, then the long one.
pub open spec fn flag_names(a: ArgSpec) -> Seq<Seq<char>> {
    let short = match a.short {
        Some(c) => seq![bold_text(short_flag_text(c))],
        None => Seq::empty(),
    };
    let long = match a.long {
        Some(l) => seq![bold_text(long_flag_text(l@))],
        None => Seq::empty(),
    };
    short + long
}

/// The roff tagged-list entry of an option: its flags, then its help and
/// possible values when there are any; nothing for an argument without flags.
pub open spec fn flag_entry_text(a: ArgSpec) -> Option<Seq<char>> {
    let names = flag_names(a);
    if names.len() == 0 {
        None
    } else {
        let header = join_text(names, ", "@);
        let help = help_with_values_text(a);
        if help.len() == 0 {
            Some(".TP\n"@ + header)
        } else {
            Some(".TP\n"@ + header + seq!['\n'] + help)
        }
    }
}

/// The roff tagged-list entry of a positional argument: its id in bold, then
/// its help and possible values; nothing when it has neither.
pub open spec fn positional_entry_text(a: ArgSpec) -> Option<Seq<char>> {
    let help = help_with_values_text(a);
    if help.len() == 0 {
        None
    } else {
        Some(".TP\n"@ + bold_text(a.id@) + seq!['\n'] + help)
    }
}

/// The placeholder for an option's value in a synopsis: its first value
/// name, else its id in upper case.
pub open spec fn value_placeholder_text(a: ArgSpec) -> Seq<char> {
    if a.value_names@.len() > 0 {
        a.value_names@[0]@
    } else {
        uppercase_text(a.id@)
    }
}

/// The flag that stands for an option in a synopsis: the long one when it
/// has one, else the short one.
pub open spec fn synopsis_flag_text(a: ArgSpec) -> Option<Seq<char>> {
    match a.long {
        Some(l) => Some(long_flag_text(l@)),
        None => match a.short {
            Some(c) => Some(short_flag_text(c)),
            None => None,
        },
    }
}

/// The synopsis part of a visible option, ` [--flag VALUE]` or ` [--flag]`.
pub open spec fn synopsis_opt_text(a: ArgSpec) -> Option<Seq<char>> {
    if a.is_opt() && !a.hidden {
        match synopsis_flag_text(a) {
            Some(f) => if a.sets_value {
                Some(seq![' ', '['] + f + seq![' '] + value_placeholder_text(a) + seq![']'])
            } else {
                Some(seq![' ', '['] + f + seq![']'])
            },
            None => None,
        }
    } else {
        None
    }
}

/// The synopsis part of a visible positional argument: its id in italics,
/// in brackets unless it is required.
pub open spec fn synopsis_positional_text(a: ArgSpec) -> Option<Seq<char>> {
    if a.is_positional() && !a.hidden {
        if a.required {
            Some(seq![' '] + italic_text(a.id@))
        } else {
            Some(seq![' ', '['] + italic_text(a.id@) + seq![']'])
        }
    } else {
        None
    }
}

/// The synopsis line of a subcommand of the command called `name`.
pub open spec fn synopsis_line_text(name: Seq<char>, sub: CommandSpec) -> Seq<char> {
    "\n.br\n"@ + bold_text(name) + seq![' '] + bold_text(sub.name@)
        + concat_text(sub.args@.filter_map(|a: ArgSpec| synopsis_opt_text(a)))
        + concat_text(sub.args@.filter_map(|a: ArgSpec| synopsis_positional_text(a)))
}

/// Return a roff line listing the visible possible values of the given
/// argument.
///
/// Each value is rendered in bold, followed by its help in parentheses when
/// present. Returns an empty string when there is nothing to display.
pub fn possible_values_line(a: &ArgSpec) -> (res: String)
    ensures
        res@ == possible_values_text(*a),
{
    let ghost f = |pv: PossibleValueSpec| shown_value_text(pv);
    let ghost pvs = a.possible_values@;
    let mut values: Vec<String> = Vec::new();
    let n = a.possible_values.len();
    let mut i: usize = 0;
    while i < n
        invariant
            n == pvs.len(),
            pvs == a.possible_values@,
            f == (|pv: PossibleValueSpec| shown_value_text(pv)),
            0 <= i <= n,
            values.deep_view() =~= pvs.take(i as int).filter_map(f),
        decreases n - i,
    {
        proof {
            pvs.lemma_filter_map_take_succ(f, i as int);
        }
        let pv = &a.possible_values[i];
        if !pv.hidden {
            let mut t = bold(pv.name.as_str());
            match &pv.help {
                Some(h) => {
                    t.append(" (");
                    t.append(h.as_str());
                    t.append(")");
                },
                None => {},
            }
            let ghost before = values.deep_view();
            values.push(t);
            assert(values.deep_view() =~= before.push(t@));
        }
        i = i + 1;
    }
    assert(pvs.take(n as int) =~= pvs);
    if values.len() == 0 {
        return String::new();
    }
    let mut line = String::from_str(".br\nPossible values: ");
    let joined = join(&values, ", ");
    line.append(joined.as_str());
    line
}

/// Return the help text of the given argument, followed by its possible
/// values line when present.
pub fn help_with_possible_values(a: &ArgSpec) -> (res: String)
    ensures
        res@ == help_with_values_text(*a),
{
    let mut help = match &a.help {
        Some(h) => h.clone(),
        None => String::new(),
    };
    let values = possible_values_line(a);
    if !values.as_str().is_empty() {
        if !help.as_str().is_empty() {
            push_char(&mut help, '\n');
        }
        help.append(values.as_str());
    }
    help
}

/// Return a roff tagged-list (`.TP`) entry describing a single option,
/// including its help and possible values.
///
/// Returns `None` when the argument has no short or long name.
pub fn flag_entry(a: &ArgSpec) -> (res: Option<String>)
    ensures
        res.deep_view() == flag_entry_text(*a),
{
    let mut names: Vec<String> = Vec::new();
    let ghost short_part: Seq<Seq<char>> = Seq::empty();
    match a.short {
        Some(c) => {
            let mut f = String::new();
            push_char(&mut f, '-');
            push_char(&mut f, c);
            assert(f@ =~= short_flag_text(c));
            let b = bold(f.as_str());
            names.push(b);
            proof {
                short_part = seq![b@];
            }
            assert(names.deep_view() =~= short_part);
        },
        None => {
            assert(names.deep_view() =~= short_part);
        },
    }
    match &a.long {
        Some(l) => {
            let mut f = String::new();
            push_char(&mut f, '-');
            push_char(&mut f, '-');
            f.append(l.as_str());
            assert(f@ =~= long_flag_text(l@));
            let b = bold(f.as_str());
            let ghost before = names.deep_view();
            names.push(b);
            assert(names.deep_view() =~= before + seq![b@]);
        },
        None => {},
    }
    assert(names.deep_view() =~= flag_names(*a));
    if names.len() == 0 {
        return None;
    }
    let header = join(&names, ", ");
    let help = help_with_possible_values(a);
    let mut entry = String::from_str(".TP\n");
    entry.append(header.as_str());
    if !help.as_str().is_empty() {
        push_char(&mut entry, '\n');
        entry.append(help.as_str());
    }
    Some(entry)
}

/// Return a roff tagged-list (`.TP`) entry describing a single positional
/// argument, including its help and possible values.
///
/// Returns `None` when the argument has no help and no possible values.
pub fn positional_entry(a: &ArgSpec) -> (res: Option<String>)
    ensures
        res.deep_view() == positional_entry_text(*a),
{
    let help = help_with_possible_values(a);
    if help.as_str().is_empty() {
        return None;
    }
    let mut entry = String::from_str(".TP\n");
    let id = bold(a.id.as_str());
    entry.append(id.as_str());
    push_char(&mut entry, '\n');
    entry.append(help.as_str());
    Some(entry)
}

/// Return the value placeholder of the given argument, used in synopsis
/// entries: either its value name or its id uppercased.
pub fn value_placeholder(a: &ArgSpec) -> (res: String)
    ensures
        res@ == value_placeholder_text(*a),
{
    if a.value_names.len() > 0 {
        a.value_names[0].clone()
    } else {
        to_uppercase(a.id.as_str())
    }
}

/// The synopsis part of one option, when it is a visible option with a flag.
fn synopsis_opt_part(a: &ArgSpec) -> (res: Option<String>)
    ensures
        res.deep_view() == synopsis_opt_text(*a),
{
    if !a.opt() || a.hidden {
        return None;
    }
    let mut flag = String::new();
    match &a.long {
        Some(l) => {
            push_char(&mut flag, '-');
            push_char(&mut flag, '-');
            flag.append(l.as_str());
        },
        None => match a.short {
            Some(c) => {
                push_char(&mut flag, '-');
                push_char(&mut flag, c);
            },
            None => {
                return None;
            },
        },
    }
    assert(synopsis_flag_text(*a) == Some(flag@));
    let mut part = String::new();
    push_char(&mut part, ' ');
    push_char(&mut part, '[');
    part.append(flag.as_str());
    if a.sets_value {
        push_char(&mut part, ' ');
        let placeholder = value_placeholder(a);
        part.append(placeholder.as_str());
    }
    push_char(&mut part, ']');
    Some(part)
}

/// The synopsis part of one argument, when it is a visible positional one.
fn synopsis_positional_part(a: &ArgSpec) -> (res: Option<String>)
    ensures
        res.deep_view() == synopsis_positional_text(*a),
{
    if !a.positional() || a.hidden {
        return None;
    }
    let placeholder = italic(a.id.as_str());
    let mut part = String::new();
    push_char(&mut part, ' ');
    if a.required {
        part.append(placeholder.as_str());
    } else {
        push_char(&mut part, '[');
        part.append(placeholder.as_str());
        push_char(&mut part, ']');
    }
    Some(part)
}

/// Return the SYNOPSIS roff line for the given subcommand, listing its
/// visible options and positional arguments.
pub fn synopsis_line(name: &str, sub: &CommandSpec) -> (res: String)
    ensures
        res@ == synopsis_line_text(name@, *sub),
{
    let mut line = String::from_str("\n.br\n");
    let b = bold(name);
    line.append(b.as_str());
    push_char(&mut line, ' ');
    let b = bold(sub.name.as_str());
    line.append(b.as_str());
    let ghost head = line@;
    let ghost args = sub.args@;
    let ghost fo = |a: ArgSpec| synopsis_opt_text(a);
    let ghost fp = |a: ArgSpec| synopsis_positional_text(a);
    let n = sub.args.len();
    let mut i: usize = 0;
    while i < n
        invariant
            n == args.len(),
            args == sub.args@,
            fo == (|a: ArgSpec| synopsis_opt_text(a)),
            0 <= i <= n,
            line@ == head + concat_text(args.take(i as int).filter_map(fo)),
        decreases n - i,
    {
        proof {
            args.lemma_filter_map_take_succ(fo, i as int);
        }
        let ghost prev = args.take(i as int).filter_map(fo);
        match synopsis_opt_part(&sub.args[i]) {
            Some(part) => {
                line.append(part.as_str());
                assert(args.take(i + 1).filter_map(fo).drop_last() =~= prev);
            },
            None => {
                assert(args.take(i + 1).filter_map(fo) =~= prev);
            },
        }
        i = i + 1;
    }
    assert(args.take(n as int) =~= args);
    let ghost mid = line@;
    let mut i: usize = 0;
    while i < n
        invariant
            n == args.len(),
            args == sub.args@,
            fp == (|a: ArgSpec| synopsis_positional_text(a)),
            0 <= i <= n,
            line@ == mid + concat_text(args.take(i as int).filter_map(fp)),
        decreases n - i,
    {
        proof {
            args.lemma_filter_map_take_succ(fp, i as int);
        }
        let ghost prev = args.take(i as int).filter_map(fp);
        match synopsis_positional_part(&sub.args[i]) {
            Some(part) => {
                line.append(part.as_str());
                assert(args.take(i + 1).filter_map(fp).drop_last() =~= prev);
            },
            None => {
                assert(args.take(i + 1).filter_map(fp) =~= prev);
            },
        }
        i = i + 1;
    }
    line
}

} // verus!
