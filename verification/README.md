# clap2man

Converts the description of a command-line interface (read from a
`clap::Command`) into a basic manual page, handed over as a `man::Manual`
that can be customized further and rendered.

Layout of `src/`:

- `command.rs`: the command description as plain values (`CommandSpec`,
  `ArgSpec`, `PossibleValueSpec`); `clap_input.rs` reads one out of a
  `clap::Command`.
- `text.rs`, `entry.rs`: the roff text of one argument, possible value or
  synopsis line.
- `manual.rs`: the page being filled (`ManualPage`) and what it holds
  (`ManualView`).
- `fill.rs`: the functions that fill each part of a page; `wrapper.rs`:
  `ManualPage::try_from`, which fills a whole page.
- `man_page.rs`: `ManualPage::into_man`, which hands a page to the `man`
  crate.
- `laws.rs`: properties of the library as a whole.
- `error.rs`: why a page could not be made.

The logic is stated in contracts over the views of these types and proved. Reading a `clap::Command` and building a `man::Manual` go through
trusted calls into those crates: each getter's result is given a name,
and each `man` builder call states what it adds to the page, so the
description read and the page handed over are tied to the command and to
the library's page. `app/` adds an
error type implementing `std::error::Error` and a one-call conversion from
`clap::Command` to `man::Manual`.
