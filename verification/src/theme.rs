//! The enumerations shared by the cache and the config.

use crate::text::same_text;
use vstd::prelude::*;

verus! {

/// The colour scheme of the user interface.
#[derive(Debug, Clone, Copy, PartialEq, Eq, Structural)]
pub enum Theme {
    Light,
    Dark,
}

impl Theme {
    /// The other theme.
    pub open spec fn spec_switch_theme(self) -> Theme {
        match self {
            Theme::Dark => Theme::Light,
            Theme::Light => Theme::Dark,
        }
    }

    /// Swaps the two variants.
    #[verifier::when_used_as_spec(spec_switch_theme)]
    pub fn switch_theme(self) -> (other: Theme)
        ensures
            other == self.spec_switch_theme(),
            other != self,
    {
        match self {
            Theme::Dark => Theme::Light,
            Theme::Light => Theme::Dark,
        }
    }

    /// The theme as a document names it.
    pub open spec fn spec_name(self) -> Seq<char> {
        match self {
            Theme::Light => "light"@,
            Theme::Dark => "dark"@,
        }
    }

    /// The theme that a document names `name`.
    pub open spec fn spec_from_name(name: Seq<char>) -> Option<Theme> {
        if name == "light"@ {
            Some(Theme::Light)
        } else if name == "dark"@ {
            Some(Theme::Dark)
        } else {
            None
        }
    }

    /// The theme as a document names it.
    pub fn name(self) -> (name: &'static str)
        ensures
            name@ == self.spec_name(),
    {
        match self {
            Theme::Light => "light",
            Theme::Dark => "dark",
        }
    }

    /// The theme that a document names `name`, if it names one.
    pub fn from_name(name: &str) -> (theme: Option<Theme>)
        ensures
            theme == Theme::spec_from_name(name@),
    {
        if same_text(name, "light") {
            Some(Theme::Light)
        } else if same_text(name, "dark") {
            Some(Theme::Dark)
        } else {
            None
        }
    }

    /// A theme is found again by its name.
    pub proof fn lemma_name_names_it(self)
        ensures
            Theme::spec_from_name(self.spec_name()) == Some(self),
    {
        reveal_strlit("light");
        reveal_strlit("dark");
        assert("light"@[0] != "dark"@[0]);
    }

    /// Switching twice gives the theme one started with.
    pub proof fn lemma_switch_is_involution(self)
        ensures
            self.spec_switch_theme().spec_switch_theme() == self,
    {
    }
}

/// How an image is smoothed when it is scaled.
#[derive(Debug, Clone, Copy, PartialEq, Eq, Structural)]
pub enum Antialias {
    Auto,
    Always,
    Never,
}

impl Antialias {
    /// The setting as a document names it.
    pub open spec fn spec_name(self) -> Seq<char> {
        match self {
            Antialias::Auto => "auto"@,
            Antialias::Always => "always"@,
            Antialias::Never => "never"@,
        }
    }

    /// The setting that a document names `name`.
    pub open spec fn spec_from_name(name: Seq<char>) -> Option<Antialias> {
        if name == "auto"@ {
            Some(Antialias::Auto)
        } else if name == "always"@ {
            Some(Antialias::Always)
        } else if name == "never"@ {
            Some(Antialias::Never)
        } else {
            None
        }
    }

    /// The setting as a document names it.
    pub fn name(self) -> (name: &'static str)
        ensures
            name@ == self.spec_name(),
    {
        match self {
            Antialias::Auto => "auto",
            Antialias::Always => "always",
            Antialias::Never => "never",
        }
    }

    /// The setting that a document names `name`, if it names one.
    pub fn from_name(name: &str) -> (setting: Option<Antialias>)
        ensures
            setting == Antialias::spec_from_name(name@),
    {
        if same_text(name, "auto") {
            Some(Antialias::Auto)
        } else if same_text(name, "always") {
            Some(Antialias::Always)
        } else if same_text(name, "never") {
            Some(Antialias::Never)
        } else {
            None
        }
    }

    /// A setting is found again by its name.
    pub proof fn lemma_name_names_it(self)
        ensures
            Antialias::spec_from_name(self.spec_name()) == Some(self),
    {
        reveal_strlit("auto");
        reveal_strlit("always");
        reveal_strlit("never");
        assert("always"@.len() != "never"@.len());
    }
}

impl Default for Antialias {
    fn default() -> (value: Antialias)
        ensures
            value == Antialias::Auto,
    {
        Antialias::Auto
    }
}

} // verus!
