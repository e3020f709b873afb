//! The manual page that the library fills: what it holds, as plain values.

use vstd::prelude::*;

verus! {

/// A flag entry of the manual page's FLAGS section.
#[derive(Debug, Clone)]
pub struct FlagEntry {
    /// The short form, such as `-v`.
    pub short: Option<String>,
    /// The long form, such as `--verbose`.
    pub long: Option<String>,
    /// The help text.
    pub help: Option<String>,
}

/// A section of the manual page with a title of its own.
#[derive(Debug, Clone)]
pub struct PageSection {
    /// The section's title.
    pub name: String,
    /// Its paragraphs, in order.
    pub paragraphs: Vec<String>,
}

/// A manual page: its name, its short and long descriptions, its authors,
/// its flags, the arguments of its synopsis and its extra sections, each
/// list in the order the entries were added.
///
/// Use `ManualPage::try_from` to build one from a command, or `ManualPage::new` and
/// the functions of the `fill` module to fill one part by part; then
/// `into_man` gives the `man::Manual` to render or customize further.
#[derive(Debug, Clone)]
pub struct ManualPage {
    /// The program's name.
    pub name: String,
    /// The short description.
    pub about: Option<String>,
    /// The long description.
    pub description: Option<String>,
    /// The authors.
    pub authors: Vec<String>,
    /// The flags.
    pub flags: Vec<FlagEntry>,
    /// The positional arguments of the synopsis.
    pub arguments: Vec<String>,
    /// The extra sections.
    pub sections: Vec<PageSection>,
}

/// What a flag entry holds.
pub struct FlagView {
    /// The short form.
    pub short: Option<Seq<char>>,
    /// The long form.
    pub long: Option<Seq<char>>,
    /// The help text.
    pub help: Option<Seq<char>>,
}

/// What a section holds.
pub struct SectionView {
    /// The title.
    pub name: Seq<char>,
    /// The paragraphs, in order.
    pub paragraphs: Seq<Seq<char>>,
}

/// What a manual page holds.
pub struct ManualView {
    /// The program's name.
    pub name: Seq<char>,
    /// The short description.
    pub about: Option<Seq<char>>,
    /// The long description.
    pub description: Option<Seq<char>>,
    /// The authors, in order.
    pub authors: Seq<Seq<char>>,
    /// The flags, in order.
    pub flags: Seq<FlagView>,
    /// The synopsis arguments, in order.
    pub arguments: Seq<Seq<char>>,
    /// The extra sections, in order.
    pub sections: Seq<SectionView>,
}

impl View for FlagEntry {
    type V = FlagView;

    open spec fn view(&self) -> FlagView {
        FlagView {
            short: self.short.deep_view(),
            long: self.long.deep_view(),
            help: self.help.deep_view(),
        }
    }
}

impl View for PageSection {
    type V = SectionView;

    open spec fn view(&self) -> SectionView {
        SectionView { name: self.name@, paragraphs: self.paragraphs.deep_view() }
    }
}

impl View for ManualPage {
    type V = ManualView;

    open spec fn view(&self) -> ManualView {
        ManualView {
            name: self.name@,
            about: self.about.deep_view(),
            description: self.description.deep_view(),
            authors: self.authors.deep_view(),
            flags: self.flags@.map_values(|f: FlagEntry| f@),
            arguments: self.arguments.deep_view(),
            sections: self.sections@.map_values(|s: PageSection| s@),
        }
    }
}

impl ManualView {
    /// A page with a name and nothing else.
    pub open spec fn named(name: Seq<char>) -> ManualView {
        ManualView {
            name,
            about: None,
            description: None,
            authors: Seq::empty(),
            flags: Seq::empty(),
            arguments: Seq::empty(),
            sections: Seq::empty(),
        }
    }

    /// The page with its short description set to `about`.
    pub open spec fn with_about(self, about: Seq<char>) -> ManualView {
        ManualView { about: Some(about), ..self }
    }

    /// The page with its long description set to `description`.
    pub open spec fn with_description(self, description: Seq<char>) -> ManualView {
        ManualView { description: Some(description), ..self }
    }

    /// The page with one more author.
    pub open spec fn with_author(self, author: Seq<char>) -> ManualView {
        ManualView { authors: self.authors.push(author), ..self }
    }

    /// The page with more flags after those it has.
    pub open spec fn with_flags(self, flags: Seq<FlagView>) -> ManualView {
        ManualView { flags: self.flags + flags, ..self }
    }

    /// The page with more synopsis arguments after those it has.
    pub open spec fn with_arguments(self, arguments: Seq<Seq<char>>) -> ManualView {
        ManualView { arguments: self.arguments + arguments, ..self }
    }

    /// The page with one more section after those it has.
    pub open spec fn with_section(self, section: SectionView) -> ManualView {
        ManualView { sections: self.sections.push(section), ..self }
    }
}

impl ManualPage {
    /// A manual page for the program `name`, with nothing else in it yet.
    pub fn new(name: &str) -> (res: ManualPage)
        ensures
            res@ == ManualView::named(name@),
    {
        let res = ManualPage {
            name: String::from_str(name),
            about: None,
            description: None,
            authors: Vec::new(),
            flags: Vec::new(),
            arguments: Vec::new(),
            sections: Vec::new(),
        };
        assert(res@.authors =~= Seq::<Seq<char>>::empty());
        assert(res@.flags =~= Seq::<FlagView>::empty());
        assert(res@.arguments =~= Seq::<Seq<char>>::empty());
        assert(res@.sections =~= Seq::<SectionView>::empty());
        res
    }
}

} // verus!
