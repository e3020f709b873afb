use clap::builder::PossibleValue;
use clap::{Arg, Command};
use clap2man::entry::{
    flag_entry, help_with_possible_values, positional_entry, possible_values_line,
    synopsis_line, value_placeholder,
};
use clap2man::fill::{
    fill_about, fill_author, fill_description, fill_flags, fill_positionals, fill_subcommands,
    fill_synopsis,
};
use clap2man::text::{bold, italic, join};
use clap2man::{ArgSpec, CommandSpec, Error, ManualPage, PossibleValueSpec};

fn arg(id: &str) -> ArgSpec {
    ArgSpec {
        id: id.to_string(),
        short: None,
        long: None,
        help: None,
        possible_values: Vec::new(),
        value_names: Vec::new(),
        takes_value: true,
        sets_value: true,
        hidden: false,
        required: false,
    }
}

fn value(name: &str, help: Option<&str>, hidden: bool) -> PossibleValueSpec {
    PossibleValueSpec { name: name.to_string(), help: help.map(|h| h.to_string()), hidden }
}

fn command(name: &str) -> CommandSpec {
    CommandSpec {
        name: name.to_string(),
        display_name: None,
        about: Some("about".to_string()),
        long_about: None,
        author: Some("author".to_string()),
        args: Vec::new(),
        subcommands: Vec::new(),
        hidden: false,
    }
}

fn render_page(page: ManualPage) -> String {
    page.into_man().render()
}

#[test]
fn bold_and_italic_wrap_text() {
    assert_eq!(bold("x"), "\\fBx\\fR");
    assert_eq!(italic("file"), "\\fIfile\\fR");
    assert_eq!(bold(""), "\\fB\\fR");
}

#[test]
fn join_puts_separator_between() {
    let parts = vec!["a".to_string(), "b".to_string(), "c".to_string()];
    assert_eq!(join(&parts, ", "), "a, b, c");
    assert_eq!(join(&vec!["only".to_string()], ", "), "only");
    assert_eq!(join(&Vec::new(), ", "), "");
}

#[test]
fn possible_values_line_lists_visible_values() {
    let mut a = arg("mode");
    a.possible_values = vec![
        value("fast", Some("Go fast"), false),
        value("secret", None, true),
        value("slow", None, false),
    ];
    assert_eq!(
        possible_values_line(&a),
        ".br\nPossible values: \\fBfast\\fR (Go fast), \\fBslow\\fR"
    );
}

#[test]
fn possible_values_line_empty_when_all_hidden() {
    let mut a = arg("mode");
    assert_eq!(possible_values_line(&a), "");
    a.possible_values = vec![value("secret", None, true)];
    assert_eq!(possible_values_line(&a), "");
}

#[test]
fn help_with_possible_values_combinations() {
    let mut a = arg("mode");
    assert_eq!(help_with_possible_values(&a), "");
    a.help = Some("The mode".to_string());
    assert_eq!(help_with_possible_values(&a), "The mode");
    a.possible_values = vec![value("on", None, false)];
    assert_eq!(
        help_with_possible_values(&a),
        "The mode\n.br\nPossible values: \\fBon\\fR"
    );
    a.help = None;
    assert_eq!(help_with_possible_values(&a), ".br\nPossible values: \\fBon\\fR");
}

#[test]
fn flag_entry_formats() {
    let a = arg("input");
    assert_eq!(flag_entry(&a), None);

    let mut a = arg("verbose");
    a.short = Some('v');
    assert_eq!(flag_entry(&a), Some(".TP\n\\fB-v\\fR".to_string()));

    a.long = Some("verbose".to_string());
    a.help = Some("Enable verbose mode".to_string());
    assert_eq!(
        flag_entry(&a),
        Some(".TP\n\\fB-v\\fR, \\fB--verbose\\fR\nEnable verbose mode".to_string())
    );

    let mut b = arg("level");
    b.long = Some("level".to_string());
    assert_eq!(flag_entry(&b), Some(".TP\n\\fB--level\\fR".to_string()));
}

#[test]
fn positional_entry_formats() {
    let mut a = arg("input");
    assert_eq!(positional_entry(&a), None);
    a.help = Some("The input file".to_string());
    assert_eq!(
        positional_entry(&a),
        Some(".TP\n\\fBinput\\fR\nThe input file".to_string())
    );
    let mut b = arg("kind");
    b.possible_values = vec![value("a", None, false)];
    assert_eq!(
        positional_entry(&b),
        Some(".TP\n\\fBkind\\fR\n.br\nPossible values: \\fBa\\fR".to_string())
    );
}

#[test]
fn value_placeholder_uses_name_or_uppercased_id() {
    let mut a = arg("config");
    assert_eq!(value_placeholder(&a), "CONFIG");
    a.value_names = vec!["FILE".to_string(), "OTHER".to_string()];
    assert_eq!(value_placeholder(&a), "FILE");
}

#[test]
fn synopsis_line_lists_visible_options_and_positionals() {
    let mut sub = command("run");
    let mut config = arg("config");
    config.short = Some('c');
    config.long = Some("config".to_string());
    let mut quiet = arg("quiet");
    quiet.short = Some('q');
    quiet.sets_value = false;
    let mut hidden = arg("secret");
    hidden.long = Some("secret".to_string());
    hidden.hidden = true;
    let mut target = arg("target");
    target.required = true;
    let extra = arg("extra");
    sub.args = vec![config, quiet, hidden, target, extra];
    assert_eq!(
        synopsis_line("test", &sub),
        "\n.br\n\\fBtest\\fR \\fBrun\\fR [--config CONFIG] [-q] \\fItarget\\fR [\\fIextra\\fR]"
    );
}

#[test]
fn fill_synopsis_example() {
    let cmd = Command::new("test")
        .about("about")
        .subcommand(Command::new("run").arg(Arg::new("target").index(1)));
    let spec = CommandSpec::from_command(&cmd);
    let manpage = fill_synopsis(&spec, ManualPage::new("test")).unwrap();
    let rendered = render_page(manpage);
    assert!(rendered.contains(".br\n\\fBtest\\fR \\fBrun\\fR [\\fItarget\\fR]"));
}

#[test]
fn fill_synopsis_skips_hidden_subcommands() {
    let mut cmd = command("test");
    let mut hidden = command("secret");
    hidden.hidden = true;
    cmd.subcommands = vec![command("run"), hidden];
    let manpage = fill_synopsis(&cmd, ManualPage::new("test")).unwrap();
    assert_eq!(manpage.arguments, vec!["\n.br\n\\fBtest\\fR \\fBrun\\fR".to_string()]);
}

#[test]
fn fill_about_example() {
    let cmd = Command::new("test").about("my test app");
    let spec = CommandSpec::from_command(&cmd);
    let manpage = fill_about(&spec, ManualPage::new("test")).unwrap();
    assert_eq!(manpage.about, Some("my test app".to_string()));
    assert!(render_page(manpage).contains("my test app"));
}

#[test]
fn fill_about_and_author_report_missing_text() {
    let mut cmd = command("test");
    cmd.about = None;
    cmd.author = None;
    assert!(matches!(fill_about(&cmd, ManualPage::new("test")), Err(Error::MissingAbout)));
    assert!(matches!(fill_author(&cmd, ManualPage::new("test")), Err(Error::MissingAuthor)));
}

#[test]
fn fill_description_defaults_to_empty() {
    let mut cmd = command("test");
    let manpage = fill_description(&cmd, ManualPage::new("test")).unwrap();
    assert_eq!(manpage.description, Some(String::new()));
    cmd.long_about = Some("Long".to_string());
    let manpage = fill_description(&cmd, ManualPage::new("test")).unwrap();
    assert_eq!(manpage.description, Some("Long".to_string()));
}

#[test]
fn fill_author_appends() {
    let cmd = command("test");
    let manpage = fill_author(&cmd, ManualPage::new("test")).unwrap();
    let manpage = fill_author(&cmd, manpage).unwrap();
    assert_eq!(manpage.authors, vec!["author".to_string(), "author".to_string()]);
}

#[test]
fn fill_flags_example() {
    let cmd = Command::new("test").arg(
        Arg::new("verbose")
            .short('v')
            .long("verbose")
            .help("Enable verbose mode")
            .action(clap::ArgAction::SetTrue),
    );
    let spec = CommandSpec::from_command(&cmd);
    let manpage = fill_flags(&spec, ManualPage::new("test")).unwrap();
    let rendered = render_page(manpage);
    assert!(rendered.contains("Enable verbose mode"));
    assert!(rendered.contains("\\-v"));
    assert!(rendered.contains("\\-\\-verbose"));
}

#[test]
fn fill_flags_adds_standard_flags_once() {
    let cmd = command("test");
    let manpage = fill_flags(&cmd, ManualPage::new("test")).unwrap();
    assert_eq!(manpage.flags.len(), 2);
    assert_eq!(manpage.flags[0].short, Some("-h".to_string()));
    assert_eq!(manpage.flags[0].long, Some("--help".to_string()));
    assert_eq!(
        manpage.flags[0].help,
        Some("Print help (see a summary with '-h')".to_string())
    );
    assert_eq!(manpage.flags[1].short, Some("-V".to_string()));
    assert_eq!(manpage.flags[1].long, Some("--version".to_string()));
    assert_eq!(manpage.flags[1].help, Some("Print version".to_string()));

    let mut cmd = command("test");
    let mut help = arg("h");
    help.short = Some('h');
    let mut version = arg("version");
    version.long = Some("version".to_string());
    cmd.args = vec![help, version];
    let manpage = fill_flags(&cmd, ManualPage::new("test")).unwrap();
    assert_eq!(manpage.flags.len(), 2);
    assert_eq!(manpage.flags[0].short, Some("-h".to_string()));
    assert_eq!(manpage.flags[0].long, None);
    assert_eq!(manpage.flags[1].long, Some("--version".to_string()));
    assert_eq!(manpage.flags[1].short, None);
}

#[test]
fn fill_flags_one_argument_defines_help_and_version() {
    // An argument with short `h` and long `version` defines both flags, so
    // neither standard flag is added.
    let mut cmd = command("test");
    let mut a = arg("x");
    a.short = Some('h');
    a.long = Some("version".to_string());
    a.help = Some("X".to_string());
    cmd.args = vec![a];
    let manpage = fill_flags(&cmd, ManualPage::new("test")).unwrap();
    assert_eq!(manpage.flags.len(), 1);
    assert_eq!(manpage.flags[0].short, Some("-h".to_string()));
    assert_eq!(manpage.flags[0].long, Some("--version".to_string()));
    assert_eq!(manpage.flags[0].help, Some("X".to_string()));
}

#[test]
fn fill_flags_lists_only_options() {
    let mut cmd = command("test");
    let mut flag = arg("switch");
    flag.long = Some("switch".to_string());
    flag.takes_value = false;
    let positional = arg("input");
    cmd.args = vec![flag, positional];
    let manpage = fill_flags(&cmd, ManualPage::new("test")).unwrap();
    // Only the two standard flags: the switch takes no value.
    assert_eq!(manpage.flags.len(), 2);
}

#[test]
fn fill_flags_reports_first_repeat() {
    let mut cmd = command("test");
    let mut a = arg("a");
    a.short = Some('x');
    a.long = Some("same".to_string());
    let mut b = arg("b");
    b.short = Some('x');
    b.long = Some("same".to_string());
    cmd.args = vec![a, b];
    assert!(matches!(
        fill_flags(&cmd, ManualPage::new("test")),
        Err(Error::DuplicateFlag(ref s)) if s == "same"
    ));

    let mut cmd = command("test");
    let mut a = arg("a");
    a.short = Some('x');
    let mut b = arg("b");
    b.long = Some("long".to_string());
    let mut c = arg("c");
    c.short = Some('x');
    let mut d = arg("d");
    d.long = Some("long".to_string());
    cmd.args = vec![a, b, c, d];
    assert!(matches!(
        fill_flags(&cmd, ManualPage::new("test")),
        Err(Error::DuplicateShortFlag('x'))
    ));
}

#[test]
fn fill_positionals_adds_ids_and_section() {
    let mut cmd = command("test");
    let mut input = arg("input");
    input.help = Some("Input file".to_string());
    let bare = arg("bare");
    let mut flag = arg("flag");
    flag.short = Some('f');
    cmd.args = vec![input, flag, bare];
    let manpage = fill_positionals(&cmd, ManualPage::new("test")).unwrap();
    assert_eq!(manpage.arguments, vec!["input".to_string(), "bare".to_string()]);
    assert_eq!(manpage.sections.len(), 1);
    assert_eq!(manpage.sections[0].name, "arguments");
    assert_eq!(
        manpage.sections[0].paragraphs,
        vec![".TP\n\\fBinput\\fR\nInput file".to_string()]
    );

    let mut cmd = command("test");
    cmd.args = vec![arg("bare")];
    let manpage = fill_positionals(&cmd, ManualPage::new("test")).unwrap();
    assert_eq!(manpage.arguments, vec!["bare".to_string()]);
    assert!(manpage.sections.is_empty());
}

#[test]
fn fill_subcommands_example() {
    let cmd = Command::new("test").subcommand(
        Command::new("run")
            .about("Run things")
            .arg(Arg::new("target").help("Target name").index(1)),
    );
    let spec = CommandSpec::from_command(&cmd);
    let manpage = fill_subcommands(&spec, ManualPage::new("test")).unwrap();
    let rendered = render_page(manpage);
    assert!(rendered.contains(".SS run\nRun things"));
    assert!(rendered.contains("\\fBtarget\\fR\nTarget name"));
}

#[test]
fn fill_subcommands_paragraphs() {
    let mut cmd = command("test");
    let mut sub = command("sub");
    let mut out = arg("output");
    out.short = Some('o');
    out.long = Some("output".to_string());
    out.help = Some("Output file".to_string());
    let mut hidden_opt = arg("secret");
    hidden_opt.long = Some("secret".to_string());
    hidden_opt.hidden = true;
    let mut target = arg("target");
    target.help = Some("Target name".to_string());
    sub.args = vec![out, hidden_opt, target];
    let mut bare = command("bare");
    bare.about = None;
    cmd.subcommands = vec![sub, bare];
    let manpage = fill_subcommands(&cmd, ManualPage::new("test")).unwrap();
    assert_eq!(manpage.sections.len(), 1);
    assert_eq!(manpage.sections[0].name, "subcommands");
    assert_eq!(
        manpage.sections[0].paragraphs,
        vec![
            ".SS sub\nabout".to_string(),
            ".TP\n\\fB-o\\fR, \\fB--output\\fR\nOutput file".to_string(),
            ".TP\n\\fBtarget\\fR\nTarget name".to_string(),
            ".SS bare".to_string(),
        ]
    );
}

#[test]
fn hidden_subcommands_leave_no_trace() {
    let mut with_hidden = command("test");
    let mut hidden = command("hidden");
    hidden.hidden = true;
    with_hidden.subcommands = vec![command("visible"), hidden];
    let mut without = command("test");
    without.subcommands = vec![command("visible")];
    let a = fill_subcommands(&with_hidden, ManualPage::new("test")).unwrap();
    let b = fill_subcommands(&without, ManualPage::new("test")).unwrap();
    assert_eq!(a.sections[0].paragraphs, b.sections[0].paragraphs);

    let mut only_hidden = command("test");
    let mut hidden = command("hidden");
    hidden.hidden = true;
    only_hidden.subcommands = vec![hidden];
    let c = fill_subcommands(&only_hidden, ManualPage::new("test")).unwrap();
    assert!(c.sections.is_empty());
}

#[test]
fn filling_keeps_what_the_page_held() {
    let mut cmd = command("test");
    let mut input = arg("input");
    input.help = Some("Input".to_string());
    cmd.args = vec![input];
    let mut page = ManualPage::new("test");
    page.authors.push("first".to_string());
    page.arguments.push("earlier".to_string());
    let page = fill_author(&cmd, page).unwrap();
    let page = fill_positionals(&cmd, page).unwrap();
    assert_eq!(page.name, "test");
    assert_eq!(page.authors, vec!["first".to_string(), "author".to_string()]);
    assert_eq!(page.arguments, vec!["earlier".to_string(), "input".to_string()]);
}

#[test]
fn try_from_reports_errors_in_order() {
    let mut cmd = command("test");
    cmd.about = None;
    cmd.author = None;
    assert!(matches!(ManualPage::try_from(&cmd), Err(Error::MissingAbout)));
    cmd.about = Some("about".to_string());
    assert!(matches!(ManualPage::try_from(&cmd), Err(Error::MissingAuthor)));
    cmd.author = Some("author".to_string());
    let mut a = arg("a");
    a.short = Some('a');
    let mut b = arg("b");
    b.short = Some('a');
    cmd.args = vec![a, b];
    assert!(matches!(ManualPage::try_from(&cmd), Err(Error::DuplicateShortFlag('a'))));
}

#[test]
fn try_from_uses_display_name() {
    let mut cmd = command("test");
    cmd.display_name = Some("shown-name".to_string());
    let page = ManualPage::try_from(&cmd).unwrap();
    assert_eq!(page.name, "shown-name");
    assert_eq!(page.about, Some("about".to_string()));
    assert_eq!(page.description, Some(String::new()));
    assert_eq!(page.authors, vec!["author".to_string()]);
    assert_eq!(page.flags.len(), 2);
}

#[test]
fn error_messages() {
    assert_eq!(Error::MissingAbout.message(), "command about is missing");
    assert_eq!(Error::MissingAuthor.message(), "command author is missing");
    assert_eq!(Error::DuplicateFlag("flag".to_string()).message(), "duplicate flag --flag");
    assert_eq!(Error::DuplicateShortFlag('f').message(), "duplicate short flag -f");
}

#[test]
fn reads_possible_values_from_clap() {
    let cmd = Command::new("test").about("about").author("author").arg(
        Arg::new("mode")
            .long("mode")
            .value_parser([
                PossibleValue::new("fast").help("Go fast"),
                PossibleValue::new("secret").hide(true),
                PossibleValue::new("slow"),
            ]),
    );
    let spec = CommandSpec::from_command(&cmd);
    let page = ManualPage::try_from(&spec).unwrap();
    assert_eq!(
        page.flags[0].help,
        Some(".br\nPossible values: \\fBfast\\fR (Go fast), \\fBslow\\fR".to_string())
    );
}

#[test]
fn lib_example() {
    let cmd = Command::new("test-app")
        .version("1.2.3")
        .author("John Doe <john@doe.com>")
        .about("A test application for clap2man")
        .arg(
            Arg::new("verbose")
                .short('v')
                .long("verbose")
                .help("Enable verbose mode")
                .action(clap::ArgAction::SetTrue),
        );
    let page = ManualPage::try_from(&CommandSpec::from_command(&cmd)).unwrap();
    let rendered = page.into_man().render();
    assert!(rendered.contains("test\\-app"));
    assert!(rendered.contains("A test application for clap2man"));
}

#[test]
fn reads_which_actions_store_a_value() {
    let cmd = Command::new("test").subcommand(
        Command::new("run")
            .arg(Arg::new("config").long("config"))
            .arg(Arg::new("inputs").long("input").action(clap::ArgAction::Append))
            .arg(Arg::new("quiet").long("quiet").action(clap::ArgAction::SetTrue))
            .arg(Arg::new("level").short('l').action(clap::ArgAction::Count)),
    );
    let spec = CommandSpec::from_command(&cmd);
    let manpage = fill_synopsis(&spec, ManualPage::new("test")).unwrap();
    assert_eq!(
        manpage.arguments,
        vec!["\n.br\n\\fBtest\\fR \\fBrun\\fR [--config CONFIG] [--input INPUTS] [--quiet] [-l]"
            .to_string()]
    );
}
