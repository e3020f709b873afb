use clap::{Arg, Command};
use clap2man::fill;
use clap2man::{CommandSpec, Error, ManualPage};

/// Build the page of a command and render it.
fn render(cmd: &Command) -> Result<String, Error> {
    let spec = CommandSpec::from_command(cmd);
    let manual = ManualPage::try_from(&spec)?;
    let manpage: man::Manual = manual.into_man();
    Ok(manpage.render())
}

#[test]
fn test_integration() {
    let cmd = Command::new("test-app")
        .version("1.2.3")
        .author("John Doe <john@doe.com>")
        .about("A test application for clap2man")
        .long_about("This is a longer description of the test application. It should show up in the description section.")
        .arg(
            Arg::new("verbose")
                .short('v')
                .long("verbose")
                .help("Enable verbose mode")
                .action(clap::ArgAction::SetTrue),
        )
        .arg(
            Arg::new("config")
                .short('c')
                .long("config")
                .help("The configuration file to use")
                .num_args(1),
        )
        .arg(
            Arg::new("input")
                .help("The input file")
                .required(true)
                .index(1),
        )
        .subcommand(
            Command::new("sub")
                .about("A subcommand")
                .arg(Arg::new("sub-flag").short('s').long("sub-flag")),
        );

    let rendered = render(&cmd).unwrap();
    println!("{}", rendered);

    assert!(rendered.contains("test\\-app"));
    assert!(rendered.contains("A test application for clap2man"));
    assert!(rendered.contains("John Doe <john@doe.com>"));
    assert!(rendered.contains("Enable verbose mode"));
    assert!(rendered.contains("The configuration file to use"));
    assert!(rendered.contains("input"));
    assert!(rendered.contains("ARGUMENTS"));
    assert!(rendered.contains("\\fBinput\\fR\nThe input file"));
    assert!(rendered.contains("The input file"));
    assert!(rendered.contains("SUBCOMMANDS"));
    assert!(rendered.contains("sub"));
    assert!(rendered.contains("A subcommand"));

    // Check if flags are correctly formatted in ROFF
    assert!(rendered.contains("\\-v"));
    assert!(rendered.contains("\\-\\-verbose"));
    assert!(rendered.contains("\\-c"));
    assert!(rendered.contains("\\-\\-config"));
}

#[test]
fn test_custom_help_version_flags() {
    let cmd = Command::new("test-app")
        .about("about")
        .author("author")
        .disable_help_flag(true)
        .disable_version_flag(true)
        .arg(Arg::new("help").short('?').long("help").help("Show help"))
        .arg(
            Arg::new("ver")
                .short('V')
                .long("version")
                .help("Show version"),
        );

    let rendered = render(&cmd).unwrap();

    // The custom flags should appear, not duplicates
    assert!(rendered.contains("\\-?"));
    assert!(rendered.contains("Show help"));
    assert!(rendered.contains("\\-\\-version"));
    assert!(rendered.contains("Show version"));
}

#[test]
fn test_subcommand_flags_and_args() {
    let cmd = Command::new("test-app")
        .about("about")
        .author("author")
        .subcommand(
            Command::new("sub")
                .about("A subcommand")
                .arg(
                    Arg::new("output")
                        .short('o')
                        .long("output")
                        .help("Output file"),
                )
                .arg(Arg::new("target").help("Target name").index(1)),
        );

    let rendered = render(&cmd).unwrap();

    assert!(rendered.contains("SUBCOMMANDS"));
    assert!(rendered.contains(".SS sub\nA subcommand"));
    // Subcommand flags and args should be listed
    assert!(rendered.contains(".TP\n\\fB\\-o\\fR, \\fB\\-\\-output\\fR\nOutput file"));
    assert!(rendered.contains(".TP\n\\fBtarget\\fR\nTarget name"));
}

#[test]
fn test_errors() {
    let cmd = Command::new("test-app");
    let result = render(&cmd);
    assert!(result.is_err());
    assert!(matches!(result.unwrap_err(), Error::MissingAbout));

    let cmd = Command::new("test-app").about("about");
    let result = render(&cmd);
    assert!(result.is_err());
    assert!(matches!(result.unwrap_err(), Error::MissingAuthor));

    let cmd = Command::new("test-app")
        .about("about")
        .author("author")
        .arg(Arg::new("flag1").short('f'))
        .arg(Arg::new("flag2").short('f'));
    let result = render(&cmd);
    assert!(result.is_err());
    assert!(matches!(result.unwrap_err(), Error::DuplicateShortFlag('f')));

    let cmd = Command::new("test-app")
        .about("about")
        .author("author")
        .arg(Arg::new("flag1").long("flag"))
        .arg(Arg::new("flag2").long("flag"));
    let result = render(&cmd);
    assert!(result.is_err());
    assert!(matches!(
        result.unwrap_err(),
        Error::DuplicateFlag(ref s) if s == "flag"
    ));
}

#[test]
fn test_hidden_subcommand_not_rendered() {
    let cmd = Command::new("test-app")
        .about("about")
        .author("author")
        .subcommand(Command::new("visible").about("shown"))
        .subcommand(Command::new("hidden").about("not shown").hide(true));

    let rendered = render(&cmd).unwrap();

    assert!(rendered.contains("visible"));
    assert!(!rendered.contains("hidden"));
}

#[test]
fn test_fill_module_direct() {
    let cmd = Command::new("test")
        .about("my test app")
        .author("Test Author")
        .long_about("Long description")
        .arg(
            Arg::new("verbose")
                .short('v')
                .long("verbose")
                .help("Enable verbose mode")
                .action(clap::ArgAction::SetTrue),
        )
        .arg(Arg::new("input").help("Input file").index(1));
    let spec = CommandSpec::from_command(&cmd);

    let mut manpage = ManualPage::new("test");
    manpage = fill::fill_about(&spec, manpage).unwrap();
    manpage = fill::fill_description(&spec, manpage).unwrap();
    manpage = fill::fill_author(&spec, manpage).unwrap();
    manpage = fill::fill_flags(&spec, manpage).unwrap();
    manpage = fill::fill_positionals(&spec, manpage).unwrap();
    let rendered = manpage.into_man().render();

    assert!(rendered.contains("my test app"));
    assert!(rendered.contains("Long description"));
    assert!(rendered.contains("Test Author"));
    assert!(rendered.contains("Enable verbose mode"));
    assert!(rendered.contains("Input file"));
}
