//! The highlighter adapter: a stateless mapping from the current path and
//! theme to the configuration the external syntax highlighter consumes.

use vstd::prelude::*;

use crate::strutil::push_char;
use crate::theme::HighlightTheme;

verus! {

/// What the external syntax highlighter is told: the theme and the file
/// extension that selects the syntax.
#[derive(Clone, Debug)]
pub struct HighlightConfig {
    pub theme: HighlightTheme,
    pub extension: String,
}

/// ASCII lowercase of one character; characters outside `A`..`Z` stay as
/// they are.
pub open spec fn spec_lower_char(c: char) -> char {
    match c {
        'A' => 'a',
        'B' => 'b',
        'C' => 'c',
        'D' => 'd',
        'E' => 'e',
        'F' => 'f',
        'G' => 'g',
        'H' => 'h',
        'I' => 'i',
        'J' => 'j',
        'K' => 'k',
        'L' => 'l',
        'M' => 'm',
        'N' => 'n',
        'O' => 'o',
        'P' => 'p',
        'Q' => 'q',
        'R' => 'r',
        'S' => 's',
        'T' => 't',
        'U' => 'u',
        'V' => 'v',
        'W' => 'w',
        'X' => 'x',
        'Y' => 'y',
        'Z' => 'z',
        _ => c,
    }
}

/// ASCII lowercase of one character.
pub fn lower_char(c: char) -> (r: char)
    ensures
        r == spec_lower_char(c),
{
    match c {
        'A' => 'a',
        'B' => 'b',
        'C' => 'c',
        'D' => 'd',
        'E' => 'e',
        'F' => 'f',
        'G' => 'g',
        'H' => 'h',
        'I' => 'i',
        'J' => 'j',
        'K' => 'k',
        'L' => 'l',
        'M' => 'm',
        'N' => 'n',
        'O' => 'o',
        'P' => 'p',
        'Q' => 'q',
        'R' => 'r',
        'S' => 's',
        'T' => 't',
        'U' => 'u',
        'V' => 'v',
        'W' => 'w',
        'X' => 'x',
        'Y' => 'y',
        'Z' => 'z',
        _ => c,
    }
}

/// Index of the first character of the file-name part of a path: just past
/// the last `/`, or the start of the path.
pub open spec fn spec_name_start(p: Seq<char>) -> int
    decreases p.len(),
{
    if p.len() == 0 {
        0
    } else if p[p.len() - 1] == '/' {
        p.len() as int
    } else {
        spec_name_start(p.drop_last())
    }
}

/// Index of the last `.` of a path, or `-1` if it has none.
pub open spec fn spec_last_dot(p: Seq<char>) -> int
    decreases p.len(),
{
    if p.len() == 0 {
        -1
    } else if p[p.len() - 1] == '.' {
        p.len() - 1
    } else {
        spec_last_dot(p.drop_last())
    }
}

/// Whether the path carries a final extension: a `.` strictly inside the
/// file-name part (so a leading dot alone does not count), with at least one
/// character after it.
pub open spec fn spec_has_extension(p: Seq<char>) -> bool {
    spec_last_dot(p) > spec_name_start(p) && spec_last_dot(p) + 1 < p.len()
}

/// The extension the highlighter is configured with: the lowercased final
/// extension of the path (without the dot) if one is present, and the
/// default `"rs"` otherwise (also when no path is bound at all).
pub open spec fn spec_extension(path: Option<Seq<char>>) -> Seq<char> {
    match path {
        Option::Some(p) => if spec_has_extension(p) {
            p.subrange(spec_last_dot(p) + 1, p.len() as int).map_values(
                |c: char| spec_lower_char(c),
            )
        } else {
            "rs"@
        },
        Option::None => "rs"@,
    }
}

/// The extension part of `highlight_config`, on a bound path.
fn extension_of(p: &str) -> (r: String)
    ensures
        r@ == spec_extension(Option::Some(p@)),
{
    let n = p.unicode_len();
    proof {
        assert(p@.subrange(0, n as int) =~= p@);
    }

    // Find the start of the file-name part: scan back to the last `/`.
    let mut a: usize = n;
    while a > 0 && !(p.get_char(a - 1) == '/')
        invariant
            a <= n,
            n == p@.len(),
            spec_name_start(p@) == spec_name_start(p@.subrange(0, a as int)),
        decreases a,
    {
        proof {
            assert(p@.subrange(0, a as int).drop_last() =~= p@.subrange(0, a - 1));
        }
        a -= 1;
    }
    proof {
        assert(spec_name_start(p@) == a as int);
    }

    // Find the last `.`: scan back to it.
    let mut d: usize = n;
    while d > 0 && !(p.get_char(d - 1) == '.')
        invariant
            d <= n,
            n == p@.len(),
            spec_last_dot(p@) == spec_last_dot(p@.subrange(0, d as int)),
        decreases d,
    {
        proof {
            assert(p@.subrange(0, d as int).drop_last() =~= p@.subrange(0, d - 1));
        }
        d -= 1;
    }
    proof {
        assert(spec_last_dot(p@) == d - 1);
    }

    if d > 0 && d - 1 > a && d < n {
        // The extension runs from the character after the dot to the end.
        let mut r = String::new();
        let mut i: usize = d;
        while i < n
            invariant
                d <= i <= n,
                n == p@.len(),
                r@ =~= p@.subrange(d as int, i as int).map_values(|c: char| spec_lower_char(c)),
            decreases n - i,
        {
            push_char(&mut r, lower_char(p.get_char(i)));
            proof {
                let f = |c: char| spec_lower_char(c);
                assert(p@.subrange(d as int, (i + 1) as int) =~= p@.subrange(
                    d as int,
                    i as int,
                ).push(p@[i as int]));
                assert(p@.subrange(d as int, (i + 1) as int).map_values(f) =~= p@.subrange(
                    d as int,
                    i as int,
                ).map_values(f).push(f(p@[i as int])));
            }
            i += 1;
        }
        r
    } else {
        "rs".to_owned()
    }
}

/// The highlighter configuration for the current path and theme: the theme
/// itself, and the extension rule of `spec_extension`.
pub fn highlight_config(path: &Option<String>, theme: HighlightTheme) -> (r: HighlightConfig)
    ensures
        r.theme == theme,
        r.extension@ == spec_extension(crate::strutil::opt_str_view(*path)),
{
    let extension = match path {
        Option::Some(p) => extension_of(p.as_str()),
        Option::None => "rs".to_owned(),
    };
    HighlightConfig { theme, extension }
}

} // verus!
