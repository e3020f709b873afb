//! Turns the description of a command-line interface into a basic manual
//! page that can be customized further.
//!
//! A `clap::Command` is read into a `CommandSpec` (`CommandSpec::from_command`),
//! `ManualPage::try_from` builds the page from it, and `ManualPage::into_man`
//! hands it over to the `man` crate, which renders it:
//!
//! ```rust
//! use clap::{Arg, Command};
//! use clap2man::{CommandSpec, ManualPage};
//!
//! let cmd = Command::new("test-app")
//!     .author("John Doe <john@doe.com>")
//!     .about("A test application for clap2man")
//!     .arg(Arg::new("verbose").short('v').long("verbose").help("Enable verbose mode"));
//!
//! let page = ManualPage::try_from(&CommandSpec::from_command(&cmd)).unwrap();
//! let rendered = page.into_man().render();
//! assert!(rendered.contains("test\\-app"));
//! assert!(rendered.contains("A test application for clap2man"));
//! ```

pub mod text;
pub mod command;
mod clap_types;
pub mod clap_input;
pub mod entry;
pub mod manual;
pub mod error;
pub mod fill;
pub mod wrapper;
mod man_types;
pub mod man_page;
pub mod laws;

pub use command::{ArgSpec, CommandSpec, PossibleValueSpec};
pub use error::Error;
pub use manual::{FlagEntry, ManualPage, PageSection};
