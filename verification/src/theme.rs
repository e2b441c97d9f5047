//! Colour themes: their names and configuration keys, and the active one.

use vstd::prelude::*;
use crate::text::chars_of;
use crate::i18n::eq_lit;

verus! {

/// Available colour themes.
#[derive(Debug, Clone, Copy, PartialEq, Eq, Structural)]
pub enum ThemeId {
    Crimson,
    Emerald,
    Amber,
    Magenta,
    Halloween,
    DarkPurple,
    DarkOrange,
    DarkPink,
    DarkRed,
    DarkYellow,
    DarkBlue,
}

/// Configuration key of a theme.
pub open spec fn theme_key(id: ThemeId) -> Seq<char> {
    match id {
        ThemeId::Crimson => "crimson"@,
        ThemeId::Emerald => "emerald"@,
        ThemeId::Amber => "amber"@,
        ThemeId::Magenta => "magenta"@,
        ThemeId::Halloween => "halloween"@,
        ThemeId::DarkPurple => "dark_purple"@,
        ThemeId::DarkOrange => "dark_orange"@,
        ThemeId::DarkPink => "dark_pink"@,
        ThemeId::DarkRed => "dark_red"@,
        ThemeId::DarkYellow => "dark_yellow"@,
        ThemeId::DarkBlue => "dark_blue"@,
    }
}

/// Display name of a theme.
pub open spec fn theme_label(id: ThemeId) -> Seq<char> {
    match id {
        ThemeId::Crimson => "Crimson"@,
        ThemeId::Emerald => "Emerald"@,
        ThemeId::Amber => "Amber"@,
        ThemeId::Magenta => "Magenta"@,
        ThemeId::Halloween => "Halloween"@,
        ThemeId::DarkPurple => "Dark Purple"@,
        ThemeId::DarkOrange => "Dark Orange"@,
        ThemeId::DarkPink => "Dark Pink"@,
        ThemeId::DarkRed => "Dark Red"@,
        ThemeId::DarkYellow => "Dark Yellow"@,
        ThemeId::DarkBlue => "Dark Blue"@,
    }
}

/// The theme whose configuration key is `s`, if any.
pub open spec fn theme_of_key(s: Seq<char>) -> Option<ThemeId> {
    if s == "crimson"@ { Some(ThemeId::Crimson) }
    else if s == "emerald"@ { Some(ThemeId::Emerald) }
    else if s == "amber"@ { Some(ThemeId::Amber) }
    else if s == "magenta"@ { Some(ThemeId::Magenta) }
    else if s == "halloween"@ { Some(ThemeId::Halloween) }
    else if s == "dark_purple"@ { Some(ThemeId::DarkPurple) }
    else if s == "dark_orange"@ { Some(ThemeId::DarkOrange) }
    else if s == "dark_pink"@ { Some(ThemeId::DarkPink) }
    else if s == "dark_red"@ { Some(ThemeId::DarkRed) }
    else if s == "dark_yellow"@ { Some(ThemeId::DarkYellow) }
    else if s == "dark_blue"@ { Some(ThemeId::DarkBlue) }
    else { None }
}

impl ThemeId {
    pub const ALL: [ThemeId; 11] = [
        ThemeId::Crimson,
        ThemeId::Emerald,
        ThemeId::Amber,
        ThemeId::Magenta,
        ThemeId::Halloween,
        ThemeId::DarkPurple,
        ThemeId::DarkOrange,
        ThemeId::DarkPink,
        ThemeId::DarkRed,
        ThemeId::DarkYellow,
        ThemeId::DarkBlue,
    ];

    pub fn label(self) -> (s: &'static str)
        ensures
            s@ == theme_label(self),
    {
        match self {
            ThemeId::Crimson => "Crimson",
            ThemeId::Emerald => "Emerald",
            ThemeId::Amber => "Amber",
            ThemeId::Magenta => "Magenta",
            ThemeId::Halloween => "Halloween",
            ThemeId::DarkPurple => "Dark Purple",
            ThemeId::DarkOrange => "Dark Orange",
            ThemeId::DarkPink => "Dark Pink",
            ThemeId::DarkRed => "Dark Red",
            ThemeId::DarkYellow => "Dark Yellow",
            ThemeId::DarkBlue => "Dark Blue",
        }
    }

    pub fn as_str(self) -> (s: &'static str)
        ensures s@ == theme_key(self),
    {
        match self {
            ThemeId::Crimson => "crimson",
            ThemeId::Emerald => "emerald",
            ThemeId::Amber => "amber",
            ThemeId::Magenta => "magenta",
            ThemeId::Halloween => "halloween",
            ThemeId::DarkPurple => "dark_purple",
            ThemeId::DarkOrange => "dark_orange",
            ThemeId::DarkPink => "dark_pink",
            ThemeId::DarkRed => "dark_red",
            ThemeId::DarkYellow => "dark_yellow",
            ThemeId::DarkBlue => "dark_blue",
        }
    }

    /// Parse a configuration key; `None` for unknown values.
    pub fn from_str(s: &str) -> (r: Option<ThemeId>)
        ensures
            r == theme_of_key(s@),
    {
        let v = chars_of(s);
        if eq_lit(&v, "crimson") {
            Some(ThemeId::Crimson)
        } else if eq_lit(&v, "emerald") {
            Some(ThemeId::Emerald)
        } else if eq_lit(&v, "amber") {
            Some(ThemeId::Amber)
        } else if eq_lit(&v, "magenta") {
            Some(ThemeId::Magenta)
        } else if eq_lit(&v, "halloween") {
            Some(ThemeId::Halloween)
        } else if eq_lit(&v, "dark_purple") {
            Some(ThemeId::DarkPurple)
        } else if eq_lit(&v, "dark_orange") {
            Some(ThemeId::DarkOrange)
        } else if eq_lit(&v, "dark_pink") {
            Some(ThemeId::DarkPink)
        } else if eq_lit(&v, "dark_red") {
            Some(ThemeId::DarkRed)
        } else if eq_lit(&v, "dark_yellow") {
            Some(ThemeId::DarkYellow)
        } else if eq_lit(&v, "dark_blue") {
            Some(ThemeId::DarkBlue)
        } else {
            None
        }
    }
}

/// Position of a theme in `ThemeId::ALL`.
pub open spec fn theme_index(id: ThemeId) -> usize {
    match id {
        ThemeId::Crimson => 0,
        ThemeId::Emerald => 1,
        ThemeId::Amber => 2,
        ThemeId::Magenta => 3,
        ThemeId::Halloween => 4,
        ThemeId::DarkPurple => 5,
        ThemeId::DarkOrange => 6,
        ThemeId::DarkPink => 7,
        ThemeId::DarkRed => 8,
        ThemeId::DarkYellow => 9,
        ThemeId::DarkBlue => 10,
    }
}

/// The theme at position `i` of `ThemeId::ALL` (the last one past the end).
pub open spec fn theme_at(i: usize) -> ThemeId {
    if i == 0 { ThemeId::Crimson }
    else if i == 1 { ThemeId::Emerald }
    else if i == 2 { ThemeId::Amber }
    else if i == 3 { ThemeId::Magenta }
    else if i == 4 { ThemeId::Halloween }
    else if i == 5 { ThemeId::DarkPurple }
    else if i == 6 { ThemeId::DarkOrange }
    else if i == 7 { ThemeId::DarkPink }
    else if i == 8 { ThemeId::DarkRed }
    else if i == 9 { ThemeId::DarkYellow }
    else { ThemeId::DarkBlue }
}

/// Number of themes.
pub const THEME_COUNT: usize = 11;

impl ThemeId {
    /// Position of the theme in `ThemeId::ALL`.
    pub fn index(self) -> (i: usize)
        ensures
            i == theme_index(self),
            i < THEME_COUNT,
            theme_at(i) == self,
    {
        match self {
            ThemeId::Crimson => 0,
            ThemeId::Emerald => 1,
            ThemeId::Amber => 2,
            ThemeId::Magenta => 3,
            ThemeId::Halloween => 4,
            ThemeId::DarkPurple => 5,
            ThemeId::DarkOrange => 6,
            ThemeId::DarkPink => 7,
            ThemeId::DarkRed => 8,
            ThemeId::DarkYellow => 9,
            ThemeId::DarkBlue => 10,
        }
    }

    /// The theme at position `i` of `ThemeId::ALL`.
    pub fn at(i: usize) -> (id: ThemeId)
        requires
            i < THEME_COUNT,
        ensures
            id == theme_at(i),
            theme_index(id) == i,
    {
        if i == 0 { ThemeId::Crimson }
        else if i == 1 { ThemeId::Emerald }
        else if i == 2 { ThemeId::Amber }
        else if i == 3 { ThemeId::Magenta }
        else if i == 4 { ThemeId::Halloween }
        else if i == 5 { ThemeId::DarkPurple }
        else if i == 6 { ThemeId::DarkOrange }
        else if i == 7 { ThemeId::DarkPink }
        else if i == 8 { ThemeId::DarkRed }
        else if i == 9 { ThemeId::DarkYellow }
        else { ThemeId::DarkBlue }
    }
}

/// The theme used until one is chosen.
pub open spec fn default_theme() -> ThemeId {
    ThemeId::DarkPurple
}

/// The active theme, kept by the interface.
pub struct Theme;

impl Theme {
    /// The theme in effect before any choice.
    pub fn initial() -> (id: ThemeId)
        ensures
            id == default_theme(),
    {
        ThemeId::DarkPurple
    }

    /// Make `id` the active theme.
    pub fn set(active: &mut ThemeId, id: ThemeId)
        ensures
            *final(active) == id,
    {
        *active = id;
    }

    /// The active theme.
    pub fn current(active: &ThemeId) -> (id: ThemeId)
        ensures
            id == *active,
    {
        *active
    }
}

/// Reading back the configuration key of a theme gives that theme.
pub proof fn theme_key_round_trip(id: ThemeId)
    ensures
        theme_of_key(theme_key(id)) == Some(id),
{
    reveal_strlit("crimson");
    reveal_strlit("emerald");
    reveal_strlit("amber");
    reveal_strlit("magenta");
    reveal_strlit("halloween");
    reveal_strlit("dark_purple");
    reveal_strlit("dark_orange");
    reveal_strlit("dark_pink");
    reveal_strlit("dark_red");
    reveal_strlit("dark_yellow");
    reveal_strlit("dark_blue");
    assert("emerald"@[0] != "crimson"@[0]);
    assert("amber"@.len() != "crimson"@.len());
    assert("amber"@.len() != "emerald"@.len());
    assert("magenta"@[0] != "crimson"@[0]);
    assert("magenta"@[0] != "emerald"@[0]);
    assert("magenta"@.len() != "amber"@.len());
    assert("halloween"@.len() != "crimson"@.len());
    assert("halloween"@.len() != "emerald"@.len());
    assert("halloween"@.len() != "amber"@.len());
    assert("halloween"@.len() != "magenta"@.len());
    assert("dark_purple"@.len() != "crimson"@.len());
    assert("dark_purple"@.len() != "emerald"@.len());
    assert("dark_purple"@.len() != "amber"@.len());
    assert("dark_purple"@.len() != "magenta"@.len());
    assert("dark_purple"@.len() != "halloween"@.len());
    assert("dark_orange"@.len() != "crimson"@.len());
    assert("dark_orange"@.len() != "emerald"@.len());
    assert("dark_orange"@.len() != "amber"@.len());
    assert("dark_orange"@.len() != "magenta"@.len());
    assert("dark_orange"@.len() != "halloween"@.len());
    assert("dark_orange"@[5] != "dark_purple"@[5]);
    assert("dark_pink"@.len() != "crimson"@.len());
    assert("dark_pink"@.len() != "emerald"@.len());
    assert("dark_pink"@.len() != "amber"@.len());
    assert("dark_pink"@.len() != "magenta"@.len());
    assert("dark_pink"@[0] != "halloween"@[0]);
    assert("dark_pink"@.len() != "dark_purple"@.len());
    assert("dark_pink"@.len() != "dark_orange"@.len());
    assert("dark_red"@.len() != "crimson"@.len());
    assert("dark_red"@.len() != "emerald"@.len());
    assert("dark_red"@.len() != "amber"@.len());
    assert("dark_red"@.len() != "magenta"@.len());
    assert("dark_red"@.len() != "halloween"@.len());
    assert("dark_red"@.len() != "dark_purple"@.len());
    assert("dark_red"@.len() != "dark_orange"@.len());
    assert("dark_red"@.len() != "dark_pink"@.len());
    assert("dark_yellow"@.len() != "crimson"@.len());
    assert("dark_yellow"@.len() != "emerald"@.len());
    assert("dark_yellow"@.len() != "amber"@.len());
    assert("dark_yellow"@.len() != "magenta"@.len());
    assert("dark_yellow"@.len() != "halloween"@.len());
    assert("dark_yellow"@[5] != "dark_purple"@[5]);
    assert("dark_yellow"@[5] != "dark_orange"@[5]);
    assert("dark_yellow"@.len() != "dark_pink"@.len());
    assert("dark_yellow"@.len() != "dark_red"@.len());
    assert("dark_blue"@.len() != "crimson"@.len());
    assert("dark_blue"@.len() != "emerald"@.len());
    assert("dark_blue"@.len() != "amber"@.len());
    assert("dark_blue"@.len() != "magenta"@.len());
    assert("dark_blue"@[0] != "halloween"@[0]);
    assert("dark_blue"@.len() != "dark_purple"@.len());
    assert("dark_blue"@.len() != "dark_orange"@.len());
    assert("dark_blue"@[5] != "dark_pink"@[5]);
    assert("dark_blue"@.len() != "dark_red"@.len());
    assert("dark_blue"@.len() != "dark_yellow"@.len());
}

/// A key that parses names the theme whose key it is.
pub proof fn theme_of_key_exact(s: Seq<char>)
    ensures
        theme_of_key(s) matches Some(id) ==> theme_key(id) == s,
{
}

} // verus!
