//! Small helpers over `String` and `Option<String>`.

use vstd::prelude::*;

verus! {

/// The view of an optional string: the character sequence, if present.
pub open spec fn opt_str_view(p: Option<String>) -> Option<Seq<char>> {
    match p {
        Option::Some(s) => Option::Some(s@),
        Option::None => Option::None,
    }
}

/// Appends one character to a string.
///
/// Relies on `String::push`, which appends the given `char` to the end of
/// this `String`.
#[verifier::external_body]
pub fn push_char(s: &mut String, c: char)
    ensures
        final(s)@ == old(s)@.push(c),
{
    s.push(c)
}

} // verus!
