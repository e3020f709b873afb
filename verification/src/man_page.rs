//! Handing a manual page over to the `man` crate, which renders it and lets
//! users customize it further.

use vstd::prelude::*;

use crate::manual::{FlagView, ManualPage, ManualView, SectionView};

verus! {

/// What a `man::Manual` holds of what this library fills: its name, short
/// and long descriptions, the names of its authors, its flags, its synopsis
/// arguments and its custom sections, each list in the order it was built.
/// (Its options, environment variables and examples are not part of it.)
pub uninterp spec fn man_contents(m: man::Manual) -> ManualView;

/// What a `man::Flag` holds: its short form, long form and help.
pub uninterp spec fn man_flag_contents(f: man::Flag) -> FlagView;

/// The name of a `man::Author`.
pub uninterp spec fn man_author_name(a: man::Author) -> Seq<char>;

/// The name of a `man::Arg`.
pub uninterp spec fn man_arg_name(a: man::Arg) -> Seq<char>;

/// What a `man::Section` holds: its title and its paragraphs, in order.
pub uninterp spec fn man_section_contents(s: man::Section) -> SectionView;

/// Calls `man::Manual::new`, which makes a page named `name` with no
/// descriptions, authors, flags, arguments or sections.
#[verifier::external_body]
fn man_manual_new(name: &str) -> (res: man::Manual)
    ensures
        man_contents(res) == ManualView::named(name@),
{
    man::Manual::new(name)
}

/// Calls `man::Manual::about`, which sets the page's short description.
#[verifier::external_body]
fn man_manual_about(page: man::Manual, about: String) -> (res: man::Manual)
    ensures
        man_contents(res) == man_contents(page).with_about(about@),
{
    page.about(about)
}

/// Calls `man::Manual::description`, which sets the page's long
/// description.
#[verifier::external_body]
fn man_manual_description(page: man::Manual, description: String) -> (res: man::Manual)
    ensures
        man_contents(res) == man_contents(page).with_description(description@),
{
    page.description(description)
}

/// Calls `man::Manual::author`, which appends an author to the page.
#[verifier::external_body]
fn man_manual_author(page: man::Manual, author: man::Author) -> (res: man::Manual)
    ensures
        man_contents(res) == man_contents(page).with_author(man_author_name(author)),
{
    page.author(author)
}

/// Calls `man::Manual::flag`, which appends a flag to the page.
#[verifier::external_body]
fn man_manual_flag(page: man::Manual, flag: man::Flag) -> (res: man::Manual)
    ensures
        man_contents(res) == man_contents(page).with_flags(seq![man_flag_contents(flag)]),
{
    page.flag(flag)
}

/// Calls `man::Manual::arg`, which appends a synopsis argument to the page.
#[verifier::external_body]
fn man_manual_arg(page: man::Manual, arg: man::Arg) -> (res: man::Manual)
    ensures
        man_contents(res) == man_contents(page).with_arguments(seq![man_arg_name(arg)]),
{
    page.arg(arg)
}

/// Calls `man::Manual::custom`, which appends a section to the page.
#[verifier::external_body]
fn man_manual_custom(page: man::Manual, section: man::Section) -> (res: man::Manual)
    ensures
        man_contents(res) == man_contents(page).with_section(man_section_contents(section)),
{
    page.custom(section)
}

/// Calls `man::Author::new`, which makes an author named `name` (with no
/// e-mail).
#[verifier::external_body]
fn man_author_new(name: &str) -> (res: man::Author)
    ensures
        man_author_name(res) == name@,
{
    man::Author::new(name)
}

/// Calls `man::Flag::new`, which makes a flag with no short form, long form
/// or help.
#[verifier::external_body]
fn man_flag_new() -> (res: man::Flag)
    ensures
        man_flag_contents(res) == (FlagView { short: None, long: None, help: None }),
{
    man::Flag::new()
}

/// Calls `man::Flag::short`, which sets the flag's short form.
#[verifier::external_body]
fn man_flag_short(flag: man::Flag, short: &str) -> (res: man::Flag)
    ensures
        man_flag_contents(res) == (FlagView { short: Some(short@), ..man_flag_contents(flag) }),
{
    flag.short(short)
}

/// Calls `man::Flag::long`, which sets the flag's long form.
#[verifier::external_body]
fn man_flag_long(flag: man::Flag, long: &str) -> (res: man::Flag)
    ensures
        man_flag_contents(res) == (FlagView { long: Some(long@), ..man_flag_contents(flag) }),
{
    flag.long(long)
}

/// Calls `man::Flag::help`, which sets the flag's help text.
#[verifier::external_body]
fn man_flag_help(flag: man::Flag, help: &str) -> (res: man::Flag)
    ensures
        man_flag_contents(res) == (FlagView { help: Some(help@), ..man_flag_contents(flag) }),
{
    flag.help(help)
}

/// Calls `man::Arg::new`, which makes a synopsis argument named `name`.
#[verifier::external_body]
fn man_arg_new(name: &str) -> (res: man::Arg)
    ensures
        man_arg_name(res) == name@,
{
    man::Arg::new(name)
}

/// Calls `man::Section::new`, which makes a section titled `name` with no
/// paragraphs.
#[verifier::external_body]
fn man_section_new(name: &str) -> (res: man::Section)
    ensures
        man_section_contents(res) == (SectionView { name: name@, paragraphs: Seq::empty() }),
{
    man::Section::new(name)
}

/// Calls `man::Section::paragraph`, which appends a paragraph to the
/// section.
#[verifier::external_body]
fn man_section_paragraph(section: man::Section, text: &str) -> (res: man::Section)
    ensures
        man_section_contents(res) == (SectionView {
            paragraphs: man_section_contents(section).paragraphs.push(text@),
            ..man_section_contents(section)
        }),
{
    section.paragraph(text)
}

/// The `man::Flag` for a flag entry.
fn make_man_flag(entry: &crate::manual::FlagEntry) -> (res: man::Flag)
    ensures
        man_flag_contents(res) == entry@,
{
    let mut flag = man_flag_new();
    match &entry.short {
        Some(s) => {
            flag = man_flag_short(flag, s.as_str());
        },
        None => {},
    }
    match &entry.long {
        Some(l) => {
            flag = man_flag_long(flag, l.as_str());
        },
        None => {},
    }
    match &entry.help {
        Some(h) => {
            flag = man_flag_help(flag, h.as_str());
        },
        None => {},
    }
    flag
}

/// The `man::Section` for a section of the page.
fn make_man_section(section: &crate::manual::PageSection) -> (res: man::Section)
    ensures
        man_section_contents(res) == section@,
{
    let mut custom = man_section_new(section.name.as_str());
    let ghost paragraphs = section.paragraphs.deep_view();
    assert(paragraphs.take(0) =~= Seq::<Seq<char>>::empty());
    let mut j: usize = 0;
    while j < section.paragraphs.len()
        invariant
            0 <= j <= section.paragraphs@.len(),
            paragraphs == section.paragraphs.deep_view(),
            man_section_contents(custom) == (SectionView {
                name: section.name@,
                paragraphs: paragraphs.take(j as int),
            }),
        decreases section.paragraphs@.len() - j,
    {
        custom = man_section_paragraph(custom, section.paragraphs[j].as_str());
        assert(paragraphs.take(j + 1) =~= paragraphs.take(j as int).push(section.paragraphs@[j as int]@));
        j = j + 1;
    }
    assert(paragraphs.take(j as int) =~= paragraphs);
    custom
}

impl ManualPage {
    /// Extract the `man::Manual` that this page describes: the same name,
    /// descriptions, authors, flags, arguments and sections, each list in
    /// the same order.
    pub fn into_man(self) -> (res: man::Manual)
        ensures
            man_contents(res) == self@,
    {
        let ghost v = self@;
        let mut page = man_manual_new(self.name.as_str());
        match self.about {
            Some(about) => {
                page = man_manual_about(page, about);
            },
            None => {},
        }
        match self.description {
            Some(description) => {
                page = man_manual_description(page, description);
            },
            None => {},
        }
        let ghost header = ManualView {
            authors: Seq::empty(),
            flags: Seq::empty(),
            arguments: Seq::empty(),
            sections: Seq::empty(),
            ..v
        };
        assert(man_contents(page) == header);
        assert(v.authors.take(0) =~= Seq::<Seq<char>>::empty());
        let mut i: usize = 0;
        while i < self.authors.len()
            invariant
                0 <= i <= v.authors.len(),
                v.authors == self.authors.deep_view(),
                man_contents(page) == (ManualView { authors: v.authors.take(i as int), ..header }),
            decreases self.authors@.len() - i,
        {
            page = man_manual_author(page, man_author_new(self.authors[i].as_str()));
            assert(v.authors.take(i + 1) =~= v.authors.take(i as int).push(self.authors@[i as int]@));
            i = i + 1;
        }
        assert(v.authors.take(i as int) =~= v.authors);
        let ghost with_authors = ManualView { authors: v.authors, ..header };
        assert(v.flags.take(0) =~= Seq::<FlagView>::empty());
        let mut i: usize = 0;
        while i < self.flags.len()
            invariant
                0 <= i <= v.flags.len(),
                v.flags == self.flags@.map_values(|f: crate::manual::FlagEntry| f@),
                man_contents(page) == (ManualView { flags: v.flags.take(i as int), ..with_authors }),
            decreases self.flags@.len() - i,
        {
            page = man_manual_flag(page, make_man_flag(&self.flags[i]));
            assert(v.flags.take(i + 1) =~= v.flags.take(i as int) + seq![self.flags@[i as int]@]);
            i = i + 1;
        }
        assert(v.flags.take(i as int) =~= v.flags);
        let ghost with_flags = ManualView { flags: v.flags, ..with_authors };
        assert(v.arguments.take(0) =~= Seq::<Seq<char>>::empty());
        let mut i: usize = 0;
        while i < self.arguments.len()
            invariant
                0 <= i <= v.arguments.len(),
                v.arguments == self.arguments.deep_view(),
                man_contents(page) == (ManualView {
                    arguments: v.arguments.take(i as int),
                    ..with_flags
                }),
            decreases self.arguments@.len() - i,
        {
            page = man_manual_arg(page, man_arg_new(self.arguments[i].as_str()));
            assert(v.arguments.take(i + 1) =~= v.arguments.take(i as int) + seq![
                self.arguments@[i as int]@,
            ]);
            i = i + 1;
        }
        assert(v.arguments.take(i as int) =~= v.arguments);
        let ghost with_arguments = ManualView { arguments: v.arguments, ..with_flags };
        assert(v.sections.take(0) =~= Seq::<SectionView>::empty());
        let mut i: usize = 0;
        while i < self.sections.len()
            invariant
                0 <= i <= v.sections.len(),
                v.sections == self.sections@.map_values(|s: crate::manual::PageSection| s@),
                man_contents(page) == (ManualView {
                    sections: v.sections.take(i as int),
                    ..with_arguments
                }),
            decreases self.sections@.len() - i,
        {
            page = man_manual_custom(page, make_man_section(&self.sections[i]));
            assert(v.sections.take(i + 1) =~= v.sections.take(i as int).push(self.sections@[i as int]@));
            i = i + 1;
        }
        assert(v.sections.take(i as int) =~= v.sections);
        assert(man_contents(page) =~= v);
        page
    }
}

} // verus!
