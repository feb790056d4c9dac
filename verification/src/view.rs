//! Pure projection of the model into what the widget shell renders: the
//! toolbar flags, the status-bar texts, the window theme and the
//! highlighter configuration.

use vstd::prelude::*;

use crate::buffer::{lemma_line_of_bounds, lemma_line_start_bounds, spec_line_of, spec_line_start};
use crate::error::EditorError;
use crate::highlight::{highlight_config, spec_extension, HighlightConfig};
use crate::model::{EditorModel, ModelV};
use crate::strutil::push_char;

verus! {

/// The decimal digit `d` as a character.
pub open spec fn spec_digit(d: int) -> char {
    if d == 0 {
        '0'
    } else if d == 1 {
        '1'
    } else if d == 2 {
        '2'
    } else if d == 3 {
        '3'
    } else if d == 4 {
        '4'
    } else if d == 5 {
        '5'
    } else if d == 6 {
        '6'
    } else if d == 7 {
        '7'
    } else if d == 8 {
        '8'
    } else {
        '9'
    }
}

/// The decimal notation of `n`: most significant digit first, no leading
/// zeros (a single `0` for zero).
pub open spec fn spec_decimal(n: int) -> Seq<char>
    decreases n,
{
    if n < 10 {
        seq![spec_digit(n)]
    } else {
        spec_decimal(n / 10).push(spec_digit(n % 10))
    }
}

/// The value of a decimal digit character; characters that are no digit
/// count as zero.
pub open spec fn spec_digit_value(c: char) -> int {
    if c == '0' {
        0
    } else if c == '1' {
        1
    } else if c == '2' {
        2
    } else if c == '3' {
        3
    } else if c == '4' {
        4
    } else if c == '5' {
        5
    } else if c == '6' {
        6
    } else if c == '7' {
        7
    } else if c == '8' {
        8
    } else if c == '9' {
        9
    } else {
        0
    }
}

/// The number a digit sequence denotes, most significant digit first.
pub open spec fn spec_decimal_value(s: Seq<char>) -> int
    decreases s.len(),
{
    if s.len() == 0 {
        0
    } else {
        spec_decimal_value(s.drop_last()) * 10 + spec_digit_value(s.last())
    }
}

/// Law: the decimal notation is faithful — read back as a number, it gives
/// the number it was made from.
pub proof fn lemma_decimal_faithful(n: int)
    requires
        n >= 0,
    ensures
        spec_decimal_value(spec_decimal(n)) == n,
    decreases n,
{
    if n < 10 {
        assert(seq![spec_digit(n)].drop_last() =~= Seq::<char>::empty());
        assert(spec_decimal_value(Seq::<char>::empty()) == 0);
        assert(seq![spec_digit(n)].last() == spec_digit(n));
    } else {
        lemma_decimal_faithful(n / 10);
        assert(spec_decimal(n / 10).push(spec_digit(n % 10)).drop_last() =~= spec_decimal(
            n / 10,
        ));
        assert(spec_decimal(n / 10).push(spec_digit(n % 10)).last() == spec_digit(n % 10));
        assert(n / 10 * 10 + n % 10 == n);
    }
}

fn digit_char(d: usize) -> (r: char)
    requires
        d < 10,
    ensures
        r == spec_digit(d as int),
{
    if d == 0 {
        '0'
    } else if d == 1 {
        '1'
    } else if d == 2 {
        '2'
    } else if d == 3 {
        '3'
    } else if d == 4 {
        '4'
    } else if d == 5 {
        '5'
    } else if d == 6 {
        '6'
    } else if d == 7 {
        '7'
    } else if d == 8 {
        '8'
    } else {
        '9'
    }
}

/// `n` written in decimal.
pub fn decimal_string(n: usize) -> (r: String)
    ensures
        r@ == spec_decimal(n as int),
    decreases n,
{
    if n < 10 {
        let mut r = String::new();
        push_char(&mut r, digit_char(n));
        proof {
            assert(Seq::<char>::empty().push(spec_digit(n as int)) =~= seq![
                spec_digit(n as int),
            ]);
        }
        r
    } else {
        let mut r = decimal_string(n / 10);
        push_char(&mut r, digit_char(n % 10));
        r
    }
}

/// Status-bar right text for a zero-based cursor position: one-based
/// `"line:column"`.
pub open spec fn spec_status_right(line: int, column: int) -> Seq<char> {
    spec_decimal(line + 1) + ":"@ + spec_decimal(column + 1)
}

/// The status bar's right side: the cursor position, one-based for display.
pub fn status_right(line: usize, column: usize) -> (r: String)
    requires
        line < usize::MAX,
        column < usize::MAX,
    ensures
        r@ == spec_status_right(line as int, column as int),
{
    let mut r = decimal_string(line + 1);
    r.append(":");
    let c = decimal_string(column + 1);
    r.append(c.as_str());
    r
}

/// Status-bar left text: an I/O error wins over the path; with no error and
/// no path, the document is a new file.
pub open spec fn spec_status_left(m: ModelV) -> Seq<char> {
    match m.error {
        Option::Some(EditorError::IoFailed(k)) => k.spec_message(),
        _ => match m.path {
            Option::Some(p) => p,
            Option::None => "New file"@,
        },
    }
}

/// The status bar's left side.
pub fn status_left(m: &EditorModel) -> (r: String)
    ensures
        r@ == spec_status_left(m@),
{
    match &m.error {
        Option::Some(EditorError::IoFailed(k)) => k.message(),
        _ => match &m.path {
            Option::Some(p) => p.clone(),
            Option::None => "New file".to_owned(),
        },
    }
}

/// Whether the Save button is enabled: exactly when the buffer holds
/// unsaved modifications.
pub fn save_enabled(m: &EditorModel) -> (r: bool)
    ensures
        r == m@.dirty,
{
    m.is_dirty
}

/// Whether the window theme is the dark variant: it tracks the selected
/// highlighter theme.
pub fn window_dark(m: &EditorModel) -> (r: bool)
    ensures
        r == m@.theme.spec_is_dark(),
{
    m.theme.is_dark()
}

/// Everything the widget shell renders, projected from the model.
#[derive(Debug)]
pub struct ViewSnapshot {
    /// The Save button is enabled exactly when this holds.
    pub save_enabled: bool,
    /// Left side of the status bar.
    pub status_left: String,
    /// Right side of the status bar.
    pub status_right: String,
    /// Dark window theme when this holds, light otherwise.
    pub dark: bool,
    /// What the syntax highlighter is configured with.
    pub highlight: HighlightConfig,
}

/// Projects the model into the texts and flags of the widget tree.
pub fn project(m: &EditorModel) -> (r: ViewSnapshot)
    requires
        m@.wf(),
        m@.buffer.text.len() < usize::MAX,
    ensures
        r.save_enabled == m@.dirty,
        r.status_left@ == spec_status_left(m@),
        r.status_right@ == spec_status_right(
            spec_line_of(m@.buffer.text, m@.buffer.cursor),
            m@.buffer.cursor - spec_line_start(m@.buffer.text, m@.buffer.cursor),
        ),
        r.dark == m@.theme.spec_is_dark(),
        r.highlight.theme == m@.theme,
        r.highlight.extension@ == spec_extension(m@.path),
{
    let (line, column) = m.content.cursor_position();
    proof {
        lemma_line_of_bounds(m@.buffer.text, m@.buffer.cursor);
        lemma_line_start_bounds(m@.buffer.text, m@.buffer.cursor);
    }
    ViewSnapshot {
        save_enabled: save_enabled(m),
        status_left: status_left(m),
        status_right: status_right(line, column),
        dark: window_dark(m),
        highlight: highlight_config(&m.path, m.theme),
    }
}

} // verus!
