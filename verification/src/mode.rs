//! The two-valued appearance mode.

use vstd::prelude::*;
use vstd::string::StringExecFns;

use crate::text::{lowercase, same_text};

verus! {

/// The mode with the given lower-case name, if there is one.
pub open spec fn mode_named(name: Seq<char>) -> Option<ThemeMode> {
    if name == "light"@ {
        Some(ThemeMode::Light)
    } else if name == "dark"@ {
        Some(ThemeMode::Dark)
    } else {
        None
    }
}

/// A text that names no mode.
#[derive(Debug, Clone)]
pub struct InvalidThemeMode {
    /// The text as it was given.
    pub given: String,
}

impl InvalidThemeMode {
    /// A sentence for the user that quotes the text and names the two modes.
    pub fn message(&self) -> (msg: String)
        ensures
            msg@ == "Invalid theme mode: "@ + self.given@ + ". Use 'light' or 'dark'."@,
    {
        let mut msg = String::from_str("Invalid theme mode: ");
        msg.append(self.given.as_str());
        msg.append(". Use 'light' or 'dark'.");
        msg
    }
}

/// The appearance the system maintains: light by day, dark by night.
#[derive(Debug, Clone, Copy, PartialEq, Eq, Structural)]
pub enum ThemeMode {
    Light,
    Dark,
}

impl ThemeMode {
    /// The mode that is not `self`.
    pub open spec fn spec_opposite(&self) -> ThemeMode {
        match self {
            ThemeMode::Light => ThemeMode::Dark,
            ThemeMode::Dark => ThemeMode::Light,
        }
    }

    /// The lower-case name of the mode, as a sequence of characters.
    pub open spec fn name(&self) -> Seq<char> {
        match self {
            ThemeMode::Light => "light"@,
            ThemeMode::Dark => "dark"@,
        }
    }

    /// The lower-case name of the mode: `"light"` or `"dark"`.
    pub fn as_str(&self) -> (s: &'static str)
        ensures
            s@ == self.name(),
    {
        match self {
            ThemeMode::Light => "light",
            ThemeMode::Dark => "dark",
        }
    }

    /// The name of the mode as an owned string.
    pub fn to_string(&self) -> (s: String)
        ensures
            s@ == self.name(),
    {
        String::from_str(self.as_str())
    }

    /// The mode whose name is exactly `name`.
    pub fn from_name(name: &str) -> (r: Option<ThemeMode>)
        ensures
            r == mode_named(name@),
    {
        if same_text(name, "light") {
            Some(ThemeMode::Light)
        } else if same_text(name, "dark") {
            Some(ThemeMode::Dark)
        } else {
            None
        }
    }

    /// The mode that `s` names, whatever the case of its letters.
    ///
    /// The text is first brought to lower case and then has to be `light` or
    /// `dark`.
    pub fn parse(s: &str) -> (r: Result<ThemeMode, InvalidThemeMode>)
        ensures
            match r {
                Ok(m) => mode_named(lowercase(s@)) == Some(m),
                Err(e) => mode_named(lowercase(s@)) is None && e.given@ == s@,
            },
    {
        let lower = s.to_lowercase();
        match ThemeMode::from_name(lower.as_str()) {
            Some(m) => Ok(m),
            None => Err(InvalidThemeMode { given: String::from_str(s) }),
        }
    }

    /// The other mode.
    #[verifier::when_used_as_spec(spec_opposite)]
    pub fn opposite(&self) -> (m: ThemeMode)
        ensures
            m == self.spec_opposite(),
    {
        match self {
            ThemeMode::Light => ThemeMode::Dark,
            ThemeMode::Dark => ThemeMode::Light,
        }
    }
}

impl std::str::FromStr for ThemeMode {
    type Err = InvalidThemeMode;

    /// The mode that `s` names, whatever the case of its letters: what
    /// [`ThemeMode::parse`] returns, error included.
    fn from_str(s: &str) -> (r: Result<ThemeMode, InvalidThemeMode>)
        ensures
            match r {
                Ok(m) => mode_named(lowercase(s@)) == Some(m),
                Err(e) => mode_named(lowercase(s@)) is None && e.given@ == s@,
            },
    {
        ThemeMode::parse(s)
    }
}

/// Each mode is the one that its own name names, and the two names differ.
pub proof fn lemma_names_distinct(m: ThemeMode)
    ensures
        mode_named(m.name()) == Some(m),
        "light"@ != "dark"@,
{
    reveal_strlit("light");
    reveal_strlit("dark");
    assert("dark"@.len() == 4);
}

/// Taking the opposite twice gives the mode back, and the opposite of a mode
/// is never that mode.
pub proof fn lemma_opposite_involution(m: ThemeMode)
    ensures
        m.spec_opposite().spec_opposite() == m,
        m.spec_opposite() != m,
{
}

} // verus!
