//! The finite set of highlighter themes the editor offers.

use vstd::prelude::*;

verus! {

/// A highlighter theme, drawn from a finite enumerated set. The window theme
/// tracks whether the selected highlighter theme is a dark variant.
#[derive(Clone, Copy, Debug, PartialEq, Eq, Structural)]
pub enum HighlightTheme {
    SolarizedDark,
    SolarizedLight,
    Base16Mocha,
    Base16Ocean,
    Base16Eighties,
    InspiredGitHub,
}

impl HighlightTheme {
    /// Whether this theme is a dark variant.
    pub open spec fn spec_is_dark(self) -> bool {
        match self {
            HighlightTheme::SolarizedDark => true,
            HighlightTheme::SolarizedLight => false,
            HighlightTheme::Base16Mocha => true,
            HighlightTheme::Base16Ocean => true,
            HighlightTheme::Base16Eighties => true,
            HighlightTheme::InspiredGitHub => false,
        }
    }

    /// Whether this theme is a dark variant.
    pub fn is_dark(&self) -> (r: bool)
        ensures
            r == self.spec_is_dark(),
    {
        match self {
            HighlightTheme::SolarizedDark => true,
            HighlightTheme::SolarizedLight => false,
            HighlightTheme::Base16Mocha => true,
            HighlightTheme::Base16Ocean => true,
            HighlightTheme::Base16Eighties => true,
            HighlightTheme::InspiredGitHub => false,
        }
    }

    /// The theme selected at startup: a dark variant.
    pub fn default_theme() -> (r: HighlightTheme)
        ensures
            r == HighlightTheme::SolarizedDark,
            r.spec_is_dark(),
    {
        HighlightTheme::SolarizedDark
    }

    /// Display name of the theme, for the theme picker.
    pub open spec fn spec_name(self) -> Seq<char> {
        match self {
            HighlightTheme::SolarizedDark => "Solarized Dark"@,
            HighlightTheme::SolarizedLight => "Solarized Light"@,
            HighlightTheme::Base16Mocha => "Base16 Mocha"@,
            HighlightTheme::Base16Ocean => "Base16 Ocean"@,
            HighlightTheme::Base16Eighties => "Base16 Eighties"@,
            HighlightTheme::InspiredGitHub => "Inspired GitHub"@,
        }
    }

    /// Display name of the theme, for the theme picker.
    pub fn name(&self) -> (r: String)
        ensures
            r@ == self.spec_name(),
    {
        match self {
            HighlightTheme::SolarizedDark => "Solarized Dark".to_owned(),
            HighlightTheme::SolarizedLight => "Solarized Light".to_owned(),
            HighlightTheme::Base16Mocha => "Base16 Mocha".to_owned(),
            HighlightTheme::Base16Ocean => "Base16 Ocean".to_owned(),
            HighlightTheme::Base16Eighties => "Base16 Eighties".to_owned(),
            HighlightTheme::InspiredGitHub => "Inspired GitHub".to_owned(),
        }
    }

    /// Every theme, in the order the theme picker lists them.
    pub fn all() -> (r: Vec<HighlightTheme>)
        ensures
            r@ == seq![
                HighlightTheme::SolarizedDark,
                HighlightTheme::SolarizedLight,
                HighlightTheme::Base16Mocha,
                HighlightTheme::Base16Ocean,
                HighlightTheme::Base16Eighties,
                HighlightTheme::InspiredGitHub,
            ],
    {
        let mut v: Vec<HighlightTheme> = Vec::new();
        v.push(HighlightTheme::SolarizedDark);
        v.push(HighlightTheme::SolarizedLight);
        v.push(HighlightTheme::Base16Mocha);
        v.push(HighlightTheme::Base16Ocean);
        v.push(HighlightTheme::Base16Eighties);
        v.push(HighlightTheme::InspiredGitHub);
        proof {
            assert(v@ =~= seq![
                HighlightTheme::SolarizedDark,
                HighlightTheme::SolarizedLight,
                HighlightTheme::Base16Mocha,
                HighlightTheme::Base16Ocean,
                HighlightTheme::Base16Eighties,
                HighlightTheme::InspiredGitHub,
            ]);
        }
        v
    }
}

} // verus!
