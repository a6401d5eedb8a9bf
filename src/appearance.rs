//! The appearance preference: light, dark, or following the system.

use crate::text::same_text;
use vstd::prelude::*;

verus! {

#[derive(Clone, Copy, Debug, PartialEq, Eq, Structural)]
pub enum AppearanceMode {
    Light,
    Dark,
    Auto,
}

impl Default for AppearanceMode {
    fn default() -> (r: Self)
        ensures
            r == AppearanceMode::Auto,
    {
        AppearanceMode::Auto
    }
}

impl AppearanceMode {
    /// The stored name of the mode.
    pub open spec fn stored_name(self) -> Seq<char> {
        match self {
            AppearanceMode::Light => "light"@,
            AppearanceMode::Dark => "dark"@,
            AppearanceMode::Auto => "auto"@,
        }
    }

    /// The mode that a stored name denotes; anything unknown means `Auto`.
    pub open spec fn from_stored_name(s: Seq<char>) -> AppearanceMode {
        if s == "light"@ {
            AppearanceMode::Light
        } else if s == "dark"@ {
            AppearanceMode::Dark
        } else {
            AppearanceMode::Auto
        }
    }

    /// The modes in the order in which they are offered.
    pub open spec fn offered() -> Seq<AppearanceMode> {
        seq![AppearanceMode::Auto, AppearanceMode::Light, AppearanceMode::Dark]
    }

    /// The stored name of the mode.
    pub fn as_str(&self) -> (r: &'static str)
        ensures
            r@ == self.stored_name(),
    {
        match self {
            AppearanceMode::Light => "light",
            AppearanceMode::Dark => "dark",
            AppearanceMode::Auto => "auto",
        }
    }

    /// The mode that a stored name denotes; anything unknown means `Auto`.
    pub fn parse(s: &str) -> (r: AppearanceMode)
        ensures
            r == AppearanceMode::from_stored_name(s@),
    {
        if same_text(s, "light") {
            AppearanceMode::Light
        } else if same_text(s, "dark") {
            AppearanceMode::Dark
        } else {
            AppearanceMode::Auto
        }
    }

    /// The name shown for the mode.
    pub fn label(&self) -> (r: &'static str)
        ensures
            r@ == match self {
                AppearanceMode::Light => "Light"@,
                AppearanceMode::Dark => "Dark"@,
                AppearanceMode::Auto => "Auto (System)"@,
            },
    {
        match self {
            AppearanceMode::Light => "Light",
            AppearanceMode::Dark => "Dark",
            AppearanceMode::Auto => "Auto (System)",
        }
    }

    /// The mode to start with, given the outcome of reading the stored
    /// preference: the stored mode, or `Auto` when none is stored or the read
    /// failed.
    pub fn from_stored(lookup: &Result<Option<String>, String>) -> (r: AppearanceMode)
        ensures
            lookup matches Ok(Some(s)) ==> r == AppearanceMode::from_stored_name(s@),
            !(lookup matches Ok(Some(_))) ==> r == AppearanceMode::Auto,
    {
        match lookup {
            Ok(Some(s)) => AppearanceMode::parse(s.as_str()),
            _ => AppearanceMode::Auto,
        }
    }

    /// The modes in the order in which they are offered: Auto, Light, Dark.
    pub fn offered_modes() -> (r: Vec<AppearanceMode>)
        ensures
            r@ == AppearanceMode::offered(),
    {
        let r = vec![AppearanceMode::Auto, AppearanceMode::Light, AppearanceMode::Dark];
        assert(r@ =~= AppearanceMode::offered());
        r
    }

    /// The position of the mode among the offered ones.
    pub fn offered_index(&self) -> (r: usize)
        ensures
            r < 3,
            AppearanceMode::offered()[r as int] == *self,
    {
        match self {
            AppearanceMode::Auto => 0,
            AppearanceMode::Light => 1,
            AppearanceMode::Dark => 2,
        }
    }
}

/// Storing a mode and reading it back gives the same mode.
pub proof fn lemma_stored_name_round_trip(m: AppearanceMode)
    ensures
        AppearanceMode::from_stored_name(m.stored_name()) == m,
{
    reveal_strlit("light");
    reveal_strlit("dark");
    reveal_strlit("auto");
    assert("light"@.len() != "dark"@.len());
    assert("auto"@[0] != "dark"@[0]);
}

} // verus!
