//! Reading a command description out of a `clap::Command`.

use vstd::prelude::*;

use crate::command::{ArgSpec, CommandSpec, PossibleValueSpec};

verus! {

/// What an argument does with the values it is given, as the parser names
/// it.
pub enum ArgActionKind {
    /// `Set`: stores the one value given.
    SetValue,
    /// `Append`: stores every value given.
    Append,
    /// `SetTrue`.
    SetTrue,
    /// `SetFalse`.
    SetFalse,
    /// `Count`.
    Count,
    /// `Help`.
    Help,
    /// `HelpShort`.
    HelpShort,
    /// `HelpLong`.
    HelpLong,
    /// `Version`.
    Version,
    /// An action that a later version of the parser adds.
    Other,
}

/// The name of a command (`clap::Command::get_name`).
pub uninterp spec fn command_name_of(cmd: clap::Command) -> Seq<char>;

/// The display name of a command (`clap::Command::get_display_name`).
pub uninterp spec fn command_display_name_of(cmd: clap::Command) -> Option<Seq<char>>;

/// The about text of a command, as plain text (`clap::Command::get_about`).
pub uninterp spec fn command_about_of(cmd: clap::Command) -> Option<Seq<char>>;

/// The long about text of a command, as plain text
/// (`clap::Command::get_long_about`).
pub uninterp spec fn command_long_about_of(cmd: clap::Command) -> Option<Seq<char>>;

/// The author of a command (`clap::Command::get_author`).
pub uninterp spec fn command_author_of(cmd: clap::Command) -> Option<Seq<char>>;

/// Whether a command is hidden (`clap::Command::is_hide_set`).
pub uninterp spec fn command_hidden_of(cmd: clap::Command) -> bool;

/// The arguments of a command, in order (`clap::Command::get_arguments`).
pub uninterp spec fn command_arguments_of(cmd: clap::Command) -> Seq<clap::Arg>;

/// The options of a command, in order (`clap::Command::get_opts`).
pub uninterp spec fn command_opts_of(cmd: clap::Command) -> Seq<clap::Arg>;

/// The subcommands of a command, in order
/// (`clap::Command::get_subcommands`).
pub uninterp spec fn command_subcommands_of(cmd: clap::Command) -> Seq<clap::Command>;

/// The id of an argument, as plain text (`clap::Arg::get_id`).
pub uninterp spec fn arg_id_of(a: clap::Arg) -> Seq<char>;

/// The short flag of an argument (`clap::Arg::get_short`).
pub uninterp spec fn arg_short_of(a: clap::Arg) -> Option<char>;

/// The long flag of an argument (`clap::Arg::get_long`).
pub uninterp spec fn arg_long_of(a: clap::Arg) -> Option<Seq<char>>;

/// The help of an argument, as plain text (`clap::Arg::get_help`).
pub uninterp spec fn arg_help_of(a: clap::Arg) -> Option<Seq<char>>;

/// The possible values of an argument, in order
/// (`clap::Arg::get_possible_values`).
pub uninterp spec fn arg_possible_values_of(a: clap::Arg) -> Seq<clap::builder::PossibleValue>;

/// The value names of an argument, none when it has none
/// (`clap::Arg::get_value_names`).
pub uninterp spec fn arg_value_names_of(a: clap::Arg) -> Seq<Seq<char>>;

/// The action of an argument (`clap::Arg::get_action`).
pub uninterp spec fn arg_action_of(a: clap::Arg) -> ArgActionKind;

/// Whether an argument is hidden (`clap::Arg::is_hide_set`).
pub uninterp spec fn arg_hidden_of(a: clap::Arg) -> bool;

/// Whether an argument is required (`clap::Arg::is_required_set`).
pub uninterp spec fn arg_required_of(a: clap::Arg) -> bool;

/// The name of a possible value (`PossibleValue::get_name`).
pub uninterp spec fn value_name_of(pv: clap::builder::PossibleValue) -> Seq<char>;

/// The help of a possible value, as plain text (`PossibleValue::get_help`).
pub uninterp spec fn value_help_of(pv: clap::builder::PossibleValue) -> Option<Seq<char>>;

/// Whether a possible value is hidden (`PossibleValue::is_hide_set`).
pub uninterp spec fn value_hidden_of(pv: clap::builder::PossibleValue) -> bool;

/// Calls `clap::Command::get_name`.
#[verifier::external_body]
fn command_name(cmd: &clap::Command) -> (res: String)
    ensures
        res@ == command_name_of(*cmd),
{
    cmd.get_name().to_string()
}

/// Calls `clap::Command::get_display_name`.
#[verifier::external_body]
fn command_display_name(cmd: &clap::Command) -> (res: Option<String>)
    ensures
        res.deep_view() == command_display_name_of(*cmd),
{
    cmd.get_display_name().map(|s| s.to_string())
}

/// Calls `clap::Command::get_about`, as plain text.
#[verifier::external_body]
fn command_about(cmd: &clap::Command) -> (res: Option<String>)
    ensures
        res.deep_view() == command_about_of(*cmd),
{
    cmd.get_about().map(|s| s.to_string())
}

/// Calls `clap::Command::get_long_about`, as plain text.
#[verifier::external_body]
fn command_long_about(cmd: &clap::Command) -> (res: Option<String>)
    ensures
        res.deep_view() == command_long_about_of(*cmd),
{
    cmd.get_long_about().map(|s| s.to_string())
}

/// Calls `clap::Command::get_author`.
#[verifier::external_body]
fn command_author(cmd: &clap::Command) -> (res: Option<String>)
    ensures
        res.deep_view() == command_author_of(*cmd),
{
    cmd.get_author().map(|s| s.to_string())
}

/// Calls `clap::Command::is_hide_set`.
#[verifier::external_body]
fn command_hidden(cmd: &clap::Command) -> (res: bool)
    ensures
        res == command_hidden_of(*cmd),
{
    cmd.is_hide_set()
}

/// Calls `clap::Command::get_arguments`, collected in order.
#[verifier::external_body]
fn command_arguments(cmd: &clap::Command) -> (res: Vec<&clap::Arg>)
    ensures
        res@.len() == command_arguments_of(*cmd).len(),
        forall|i: int| 0 <= i < res@.len() ==> *res@[i] == command_arguments_of(*cmd)[i],
{
    cmd.get_arguments().collect()
}

/// Calls `clap::Command::get_opts`, collected in order.
#[verifier::external_body]
fn command_opts(cmd: &clap::Command) -> (res: Vec<&clap::Arg>)
    ensures
        res@.len() == command_opts_of(*cmd).len(),
        forall|i: int| 0 <= i < res@.len() ==> *res@[i] == command_opts_of(*cmd)[i],
{
    cmd.get_opts().collect()
}

/// Calls `clap::Command::get_subcommands`, collected in order.
#[verifier::external_body]
fn command_subcommands(cmd: &clap::Command) -> (res: Vec<&clap::Command>)
    ensures
        res@.len() == command_subcommands_of(*cmd).len(),
        forall|i: int| 0 <= i < res@.len() ==> *res@[i] == command_subcommands_of(*cmd)[i],
{
    cmd.get_subcommands().collect()
}

/// Calls `clap::Arg::get_id`, as plain text.
#[verifier::external_body]
fn arg_id(a: &clap::Arg) -> (res: String)
    ensures
        res@ == arg_id_of(*a),
{
    a.get_id().to_string()
}

/// Calls `clap::Arg::get_short`.
#[verifier::external_body]
fn arg_short(a: &clap::Arg) -> (res: Option<char>)
    ensures
        res == arg_short_of(*a),
{
    a.get_short()
}

/// Calls `clap::Arg::get_long`.
#[verifier::external_body]
fn arg_long(a: &clap::Arg) -> (res: Option<String>)
    ensures
        res.deep_view() == arg_long_of(*a),
{
    a.get_long().map(|s| s.to_string())
}

/// Calls `clap::Arg::get_help`, as plain text.
#[verifier::external_body]
fn arg_help(a: &clap::Arg) -> (res: Option<String>)
    ensures
        res.deep_view() == arg_help_of(*a),
{
    a.get_help().map(|s| s.to_string())
}

/// Calls `clap::Arg::get_possible_values`.
#[verifier::external_body]
fn arg_possible_values(a: &clap::Arg) -> (res: Vec<clap::builder::PossibleValue>)
    ensures
        res@ == arg_possible_values_of(*a),
{
    a.get_possible_values()
}

/// Calls `clap::Arg::get_value_names`, each name as plain text (none when
/// the argument has no value names).
#[verifier::external_body]
fn arg_value_names(a: &clap::Arg) -> (res: Vec<String>)
    ensures
        res.deep_view() == arg_value_names_of(*a),
{
    a.get_value_names().unwrap_or_default().iter().map(|s| s.to_string()).collect()
}

/// Calls `clap::Arg::get_action`, each action to its own variant.
#[verifier::external_body]
fn arg_action(a: &clap::Arg) -> (res: ArgActionKind)
    ensures
        res == arg_action_of(*a),
{
    match a.get_action() {
        clap::ArgAction::Set => ArgActionKind::SetValue,
        clap::ArgAction::Append => ArgActionKind::Append,
        clap::ArgAction::SetTrue => ArgActionKind::SetTrue,
        clap::ArgAction::SetFalse => ArgActionKind::SetFalse,
        clap::ArgAction::Count => ArgActionKind::Count,
        clap::ArgAction::Help => ArgActionKind::Help,
        clap::ArgAction::HelpShort => ArgActionKind::HelpShort,
        clap::ArgAction::HelpLong => ArgActionKind::HelpLong,
        clap::ArgAction::Version => ArgActionKind::Version,
        _ => ArgActionKind::Other,
    }
}

/// Calls `clap::Arg::is_hide_set`.
#[verifier::external_body]
fn arg_hidden(a: &clap::Arg) -> (res: bool)
    ensures
        res == arg_hidden_of(*a),
{
    a.is_hide_set()
}

/// Calls `clap::Arg::is_required_set`.
#[verifier::external_body]
fn arg_required(a: &clap::Arg) -> (res: bool)
    ensures
        res == arg_required_of(*a),
{
    a.is_required_set()
}

/// Calls `clap::builder::PossibleValue::get_name`.
#[verifier::external_body]
fn value_name(pv: &clap::builder::PossibleValue) -> (res: String)
    ensures
        res@ == value_name_of(*pv),
{
    pv.get_name().to_string()
}

/// Calls `clap::builder::PossibleValue::get_help`, as plain text.
#[verifier::external_body]
fn value_help(pv: &clap::builder::PossibleValue) -> (res: Option<String>)
    ensures
        res.deep_view() == value_help_of(*pv),
{
    pv.get_help().map(|s| s.to_string())
}

/// Calls `clap::builder::PossibleValue::is_hide_set`.
#[verifier::external_body]
fn value_hidden(pv: &clap::builder::PossibleValue) -> (res: bool)
    ensures
        res == value_hidden_of(*pv),
{
    pv.is_hide_set()
}

/// Whether the action stores the value given: `Set` or `Append`.
pub open spec fn stores_value_spec(action: ArgActionKind) -> bool {
    action is SetValue || action is Append
}

/// Whether the action stores the value given: `Set` or `Append`.
fn stores_value(action: &ArgActionKind) -> (res: bool)
    ensures
        res == stores_value_spec(*action),
{
    match action {
        ArgActionKind::SetValue => true,
        ArgActionKind::Append => true,
        _ => false,
    }
}

/// The description holds what the parser gives of the possible value.
pub open spec fn read_from_value(res: PossibleValueSpec, pv: clap::builder::PossibleValue) -> bool {
    &&& res.name@ == value_name_of(pv)
    &&& res.help.deep_view() == value_help_of(pv)
    &&& res.hidden == value_hidden_of(pv)
}

/// The ids of the command's options, in order.
pub open spec fn option_ids_of(cmd: clap::Command) -> Seq<Seq<char>> {
    command_opts_of(cmd).map_values(|o: clap::Arg| arg_id_of(o))
}

/// The description holds what the parser gives of the argument; it takes a
/// value when its id is among `option_ids`.
pub open spec fn read_from_arg(res: ArgSpec, a: clap::Arg, option_ids: Seq<Seq<char>>) -> bool {
    &&& res.id@ == arg_id_of(a)
    &&& res.short == arg_short_of(a)
    &&& res.long.deep_view() == arg_long_of(a)
    &&& res.help.deep_view() == arg_help_of(a)
    &&& res.possible_values@.len() == arg_possible_values_of(a).len()
    &&& forall|i: int|
        0 <= i < res.possible_values@.len() ==> read_from_value(
            #[trigger] res.possible_values@[i],
            arg_possible_values_of(a)[i],
        )
    &&& res.value_names.deep_view() == arg_value_names_of(a)
    &&& res.takes_value == option_ids.contains(arg_id_of(a))
    &&& res.sets_value == stores_value_spec(arg_action_of(a))
    &&& res.hidden == arg_hidden_of(a)
    &&& res.required == arg_required_of(a)
}

/// The description holds what the parser gives of the command (apart from
/// its subcommands): names, texts, whether it is hidden, and its arguments
/// in order, each taking a value when the command lists it as an option.
pub open spec fn read_from_command(res: CommandSpec, cmd: clap::Command) -> bool {
    &&& res.name@ == command_name_of(cmd)
    &&& res.display_name.deep_view() == command_display_name_of(cmd)
    &&& res.about.deep_view() == command_about_of(cmd)
    &&& res.long_about.deep_view() == command_long_about_of(cmd)
    &&& res.author.deep_view() == command_author_of(cmd)
    &&& res.hidden == command_hidden_of(cmd)
    &&& res.args@.len() == command_arguments_of(cmd).len()
    &&& forall|i: int|
        0 <= i < res.args@.len() ==> read_from_arg(
            #[trigger] res.args@[i],
            command_arguments_of(cmd)[i],
            option_ids_of(cmd),
        )
}

/// Whether one of the option ids is `id`.
fn contains_id(ids: &Vec<String>, id: &String) -> (res: bool)
    ensures
        res == ids.deep_view().contains(id@),
{
    let ghost d = ids.deep_view();
    let mut j: usize = 0;
    while j < ids.len()
        invariant
            0 <= j <= ids@.len(),
            d == ids.deep_view(),
            forall|k: int| 0 <= k < j ==> #[trigger] d[k] != id@,
        decreases ids@.len() - j,
    {
        if ids[j] == *id {
            assert(d[j as int] == id@);
            return true;
        }
        j = j + 1;
    }
    false
}

/// Read one argument; `option_ids` are the ids of the arguments that the
/// command lists as its options.
fn read_arg(a: &clap::Arg, option_ids: &Vec<String>) -> (res: ArgSpec)
    ensures
        read_from_arg(res, *a, option_ids.deep_view()),
{
    let action = arg_action(a);
    let clap_values = arg_possible_values(a);
    let mut possible_values: Vec<PossibleValueSpec> = Vec::new();
    let mut i: usize = 0;
    while i < clap_values.len()
        invariant
            0 <= i <= clap_values@.len(),
            clap_values@ == arg_possible_values_of(*a),
            possible_values@.len() == i,
            forall|k: int|
                0 <= k < i ==> read_from_value(#[trigger] possible_values@[k], clap_values@[k]),
        decreases clap_values@.len() - i,
    {
        let pv = &clap_values[i];
        possible_values.push(
            PossibleValueSpec { name: value_name(pv), help: value_help(pv), hidden: value_hidden(pv) },
        );
        i = i + 1;
    }
    let id = arg_id(a);
    let takes_value = contains_id(option_ids, &id);
    ArgSpec {
        id,
        short: arg_short(a),
        long: arg_long(a),
        help: arg_help(a),
        possible_values,
        value_names: arg_value_names(a),
        takes_value,
        sets_value: stores_value(&action),
        hidden: arg_hidden(a),
        required: arg_required(a),
    }
}

/// Read the arguments of a command, in order.
fn read_args(cmd: &clap::Command) -> (res: Vec<ArgSpec>)
    ensures
        res@.len() == command_arguments_of(*cmd).len(),
        forall|i: int|
            0 <= i < res@.len() ==> read_from_arg(
                #[trigger] res@[i],
                command_arguments_of(*cmd)[i],
                option_ids_of(*cmd),
            ),
{
    let opts = command_opts(cmd);
    let ghost opts_spec = command_opts_of(*cmd);
    let mut option_ids: Vec<String> = Vec::new();
    let mut i: usize = 0;
    while i < opts.len()
        invariant
            0 <= i <= opts@.len(),
            opts@.len() == opts_spec.len(),
            forall|k: int| 0 <= k < opts@.len() ==> *opts@[k] == opts_spec[k],
            option_ids.deep_view() =~= opts_spec.take(i as int).map_values(
                |o: clap::Arg| arg_id_of(o),
            ),
        decreases opts@.len() - i,
    {
        let ghost before = option_ids.deep_view();
        let id = arg_id(opts[i]);
        option_ids.push(id);
        assert(option_ids.deep_view() =~= before.push(id@));
        assert(opts_spec.take(i + 1).map_values(|o: clap::Arg| arg_id_of(o)) =~= opts_spec.take(
            i as int,
        ).map_values(|o: clap::Arg| arg_id_of(o)).push(arg_id_of(opts_spec[i as int])));
        i = i + 1;
    }
    assert(opts_spec.take(i as int) =~= opts_spec);
    assert(option_ids.deep_view() =~= option_ids_of(*cmd));
    let arguments = command_arguments(cmd);
    let mut args: Vec<ArgSpec> = Vec::new();
    let mut i: usize = 0;
    while i < arguments.len()
        invariant
            0 <= i <= arguments@.len(),
            arguments@.len() == command_arguments_of(*cmd).len(),
            forall|k: int| 0 <= k < arguments@.len() ==> *arguments@[k] == command_arguments_of(*cmd)[k],
            option_ids.deep_view() == option_ids_of(*cmd),
            args@.len() == i,
            forall|k: int|
                0 <= k < i ==> read_from_arg(
                    #[trigger] args@[k],
                    command_arguments_of(*cmd)[k],
                    option_ids_of(*cmd),
                ),
        decreases arguments@.len() - i,
    {
        args.push(read_arg(arguments[i], &option_ids));
        i = i + 1;
    }
    args
}

/// Read a command, with the given subcommands.
fn read_command(cmd: &clap::Command, subcommands: Vec<CommandSpec>) -> (res: CommandSpec)
    ensures
        read_from_command(res, *cmd),
        res.subcommands@ == subcommands@,
{
    CommandSpec {
        name: command_name(cmd),
        display_name: command_display_name(cmd),
        about: command_about(cmd),
        long_about: command_long_about(cmd),
        author: command_author(cmd),
        args: read_args(cmd),
        subcommands,
        hidden: command_hidden(cmd),
    }
}

impl CommandSpec {
    /// Read what a manual page shows of a `clap::Command`: its names,
    /// descriptions, author, arguments and subcommands, in the parser's
    /// order. The subcommands of a subcommand are not read, since no page
    /// shows them.
    pub fn from_command(cmd: &clap::Command) -> (res: CommandSpec)
        ensures
            read_from_command(res, *cmd),
            res.subcommands@.len() == command_subcommands_of(*cmd).len(),
            forall|i: int|
                0 <= i < res.subcommands@.len() ==> read_from_command(
                    #[trigger] res.subcommands@[i],
                    command_subcommands_of(*cmd)[i],
                ) && res.subcommands@[i].subcommands@.len() == 0,
    {
        let subs = command_subcommands(cmd);
        let mut subcommands: Vec<CommandSpec> = Vec::new();
        let mut i: usize = 0;
        while i < subs.len()
            invariant
                0 <= i <= subs@.len(),
                subs@.len() == command_subcommands_of(*cmd).len(),
                forall|k: int| 0 <= k < subs@.len() ==> *subs@[k] == command_subcommands_of(*cmd)[k],
                subcommands@.len() == i,
                forall|k: int|
                    0 <= k < i ==> read_from_command(
                        #[trigger] subcommands@[k],
                        command_subcommands_of(*cmd)[k],
                    ) && subcommands@[k].subcommands@.len() == 0,
            decreases subs@.len() - i,
        {
            subcommands.push(read_command(subs[i], Vec::new()));
            i = i + 1;
        }
        read_command(cmd, subcommands)
    }
}

} // verus!
