//! The editable text buffer: a character sequence with a cursor, and the
//! text-editor actions that act on it.

use vstd::prelude::*;

use crate::strutil::push_char;

verus! {

/// A cursor motion: an action that moves the cursor but leaves the text as
/// it is.
#[derive(Clone, Copy, Debug, PartialEq, Eq, Structural)]
pub enum Motion {
    Left,
    Right,
    LineStart,
    LineEnd,
}

/// One action of the text-editor widget.
///
/// `Insert`, `Paste`, `Backspace` and `Delete` mutate the stored character
/// sequence and classify as content edits; `Move`, `Select` and `Scroll` do
/// not. A selection anchor is not modelled, so `Select` moves the cursor
/// exactly as `Move` does, and `Scroll` changes nothing the model holds.
#[derive(Clone, Debug, PartialEq, Eq)]
pub enum EditAction {
    Insert(char),
    Paste(String),
    Backspace,
    Delete,
    Move(Motion),
    Select(Motion),
    Scroll,
}

/// Mathematical model of an `EditAction`.
pub enum ActionV {
    Insert(char),
    Paste(Seq<char>),
    Backspace,
    Delete,
    Move(Motion),
    Select(Motion),
    Scroll,
}

impl View for EditAction {
    type V = ActionV;

    open spec fn view(&self) -> ActionV {
        match self {
            EditAction::Insert(c) => ActionV::Insert(*c),
            EditAction::Paste(s) => ActionV::Paste(s@),
            EditAction::Backspace => ActionV::Backspace,
            EditAction::Delete => ActionV::Delete,
            EditAction::Move(m) => ActionV::Move(*m),
            EditAction::Select(m) => ActionV::Select(*m),
            EditAction::Scroll => ActionV::Scroll,
        }
    }
}

/// Whether the action mutates the stored character sequence: insertions,
/// deletions and paste do; cursor navigation, selection and scrolling do not.
pub open spec fn spec_is_content_edit(a: ActionV) -> bool {
    match a {
        ActionV::Insert(_) => true,
        ActionV::Paste(_) => true,
        ActionV::Backspace => true,
        ActionV::Delete => true,
        ActionV::Move(_) => false,
        ActionV::Select(_) => false,
        ActionV::Scroll => false,
    }
}

impl EditAction {
    /// Whether the action mutates the stored character sequence.
    pub fn is_content_edit(&self) -> (r: bool)
        ensures
            r == spec_is_content_edit(self@),
    {
        match self {
            EditAction::Insert(_) => true,
            EditAction::Paste(_) => true,
            EditAction::Backspace => true,
            EditAction::Delete => true,
            EditAction::Move(_) => false,
            EditAction::Select(_) => false,
            EditAction::Scroll => false,
        }
    }
}

/// Mathematical model of a `TextBuffer`: the character sequence and the
/// cursor, an index into it.
#[verifier::ext_equal]
pub struct BufferV {
    pub text: Seq<char>,
    pub cursor: int,
}

impl BufferV {
    /// The cursor always stays inside the text.
    pub open spec fn wf(self) -> bool {
        0 <= self.cursor <= self.text.len()
    }
}

/// Number of line breaks strictly before `pos`: the zero-based line of the
/// cursor.
pub open spec fn spec_line_of(text: Seq<char>, pos: int) -> int
    decreases pos,
{
    if pos <= 0 {
        0
    } else if text[pos - 1] == '\n' {
        spec_line_of(text, pos - 1) + 1
    } else {
        spec_line_of(text, pos - 1)
    }
}

/// Index of the first character of the line holding `pos`: just past the
/// last line break before `pos`, or the start of the text.
pub open spec fn spec_line_start(text: Seq<char>, pos: int) -> int
    decreases pos,
{
    if pos <= 0 {
        0
    } else if text[pos - 1] == '\n' {
        pos
    } else {
        spec_line_start(text, pos - 1)
    }
}

/// Index of the first line break at or after `pos`, or the end of the text:
/// where the line holding `pos` ends.
pub open spec fn spec_line_end(text: Seq<char>, pos: int) -> int
    decreases text.len() - pos,
{
    if pos >= text.len() {
        text.len() as int
    } else if text[pos] == '\n' {
        pos
    } else {
        spec_line_end(text, pos + 1)
    }
}

pub proof fn lemma_line_of_bounds(text: Seq<char>, pos: int)
    requires
        pos >= 0,
    ensures
        0 <= spec_line_of(text, pos) <= pos,
    decreases pos,
{
    if pos > 0 {
        lemma_line_of_bounds(text, pos - 1);
    }
}

pub proof fn lemma_line_start_bounds(text: Seq<char>, pos: int)
    requires
        pos >= 0,
    ensures
        0 <= spec_line_start(text, pos) <= pos,
    decreases pos,
{
    if pos > 0 {
        lemma_line_start_bounds(text, pos - 1);
    }
}

pub proof fn lemma_line_end_bounds(text: Seq<char>, pos: int)
    requires
        0 <= pos <= text.len(),
    ensures
        pos <= spec_line_end(text, pos) <= text.len(),
    decreases text.len() - pos,
{
    if pos < text.len() && !(text[pos] == '\n') {
        lemma_line_end_bounds(text, pos + 1);
    }
}

/// Where the cursor lands after a motion.
pub open spec fn spec_move_cursor(b: BufferV, m: Motion) -> int {
    match m {
        Motion::Left => if b.cursor > 0 { b.cursor - 1 } else { 0 },
        Motion::Right => if b.cursor < b.text.len() { b.cursor + 1 } else { b.cursor },
        Motion::LineStart => spec_line_start(b.text, b.cursor),
        Motion::LineEnd => spec_line_end(b.text, b.cursor),
    }
}

/// The buffer after one action.
pub open spec fn spec_apply(b: BufferV, a: ActionV) -> BufferV {
    match a {
        ActionV::Insert(c) => BufferV { text: b.text.insert(b.cursor, c), cursor: b.cursor + 1 },
        ActionV::Paste(s) => BufferV {
            text: b.text.subrange(0, b.cursor) + s + b.text.subrange(b.cursor, b.text.len() as int),
            cursor: b.cursor + s.len(),
        },
        ActionV::Backspace => if b.cursor > 0 {
            BufferV { text: b.text.remove(b.cursor - 1), cursor: b.cursor - 1 }
        } else {
            b
        },
        ActionV::Delete => if b.cursor < b.text.len() {
            BufferV { text: b.text.remove(b.cursor), cursor: b.cursor }
        } else {
            b
        },
        ActionV::Move(m) => BufferV { text: b.text, cursor: spec_move_cursor(b, m) },
        ActionV::Select(m) => BufferV { text: b.text, cursor: spec_move_cursor(b, m) },
        ActionV::Scroll => b,
    }
}

/// An action applied to a well-formed buffer leaves it well-formed.
pub proof fn lemma_apply_wf(b: BufferV, a: ActionV)
    requires
        b.wf(),
    ensures
        spec_apply(b, a).wf(),
{
    match a {
        ActionV::Move(m) | ActionV::Select(m) => {
            match m {
                Motion::LineStart => lemma_line_start_bounds(b.text, b.cursor),
                Motion::LineEnd => lemma_line_end_bounds(b.text, b.cursor),
                _ => {},
            }
        },
        _ => {},
    }
}

/// The editable text buffer: the stored character sequence and the cursor.
#[derive(Clone, Debug)]
pub struct TextBuffer {
    chars: Vec<char>,
    cursor: usize,
}

impl View for TextBuffer {
    type V = BufferV;

    closed spec fn view(&self) -> BufferV {
        BufferV { text: self.chars@, cursor: self.cursor as int }
    }
}

impl TextBuffer {
    /// An empty buffer with the cursor at the start.
    pub fn new() -> (r: TextBuffer)
        ensures
            r@.wf(),
            r@.text == Seq::<char>::empty(),
            r@.cursor == 0,
    {
        let v: Vec<char> = Vec::new();
        TextBuffer { chars: v, cursor: 0 }
    }

    /// A buffer holding the given text, cursor at the start.
    pub fn from_text(s: &str) -> (r: TextBuffer)
        ensures
            r@.wf(),
            r@.text == s@,
            r@.cursor == 0,
    {
        let n = s.unicode_len();
        let mut chars: Vec<char> = Vec::new();
        let mut i: usize = 0;
        while i < n
            invariant
                i <= n,
                n == s@.len(),
                chars@ =~= s@.subrange(0, i as int),
            decreases n - i,
        {
            chars.push(s.get_char(i));
            proof {
                assert(chars@ =~= s@.subrange(0, (i + 1) as int));
            }
            i += 1;
        }
        proof {
            assert(chars@ =~= s@);
        }
        TextBuffer { chars, cursor: 0 }
    }

    /// Full-text readout of the buffer.
    pub fn text(&self) -> (r: String)
        ensures
            r@ == self@.text,
    {
        let n = self.chars.len();
        let mut r = String::new();
        let mut i: usize = 0;
        while i < n
            invariant
                i <= n,
                n == self.chars@.len(),
                r@ =~= self.chars@.subrange(0, i as int),
            decreases n - i,
        {
            push_char(&mut r, self.chars[i]);
            proof {
                assert(r@ =~= self.chars@.subrange(0, (i + 1) as int));
            }
            i += 1;
        }
        proof {
            assert(r@ =~= self.chars@);
        }
        r
    }

    /// The cursor position as zero-based `(line, column)`.
    pub fn cursor_position(&self) -> (r: (usize, usize))
        requires
            self@.wf(),
        ensures
            r.0 == spec_line_of(self@.text, self@.cursor),
            r.1 == self@.cursor - spec_line_start(self@.text, self@.cursor),
    {
        let mut line: usize = 0;
        let mut start: usize = 0;
        let mut i: usize = 0;
        while i < self.cursor
            invariant
                i <= self.cursor,
                self.cursor <= self.chars@.len(),
                line == spec_line_of(self.chars@, i as int),
                start == spec_line_start(self.chars@, i as int),
                line <= i,
                start <= i,
            decreases self.cursor - i,
        {
            if self.chars[i] == '\n' {
                line = line + 1;
                start = i + 1;
            }
            i += 1;
        }
        (line, self.cursor - start)
    }

    /// Applies one text-editor action to the buffer.
    pub fn apply(&mut self, a: &EditAction)
        requires
            old(self)@.wf(),
        ensures
            final(self)@.wf(),
            final(self)@ == spec_apply(old(self)@, a@),
    {
        match a {
            EditAction::Insert(c) => {
                self.chars.insert(self.cursor, *c);
                // The grown length, a usize, bounds the new cursor.
                let n = self.chars.len();
                self.cursor = self.cursor + 1;
            },
            EditAction::Paste(s) => {
                let k = s.unicode_len();
                let n = self.chars.len();
                let mut out: Vec<char> = Vec::new();
                let mut i: usize = 0;
                while i < self.cursor
                    invariant
                        i <= self.cursor,
                        self.cursor <= n,
                        n == self.chars@.len(),
                        out@ =~= self.chars@.subrange(0, i as int),
                    decreases self.cursor - i,
                {
                    out.push(self.chars[i]);
                    proof {
                        assert(out@ =~= self.chars@.subrange(0, (i + 1) as int));
                    }
                    i += 1;
                }
                let mut j: usize = 0;
                while j < k
                    invariant
                        j <= k,
                        k == s@.len(),
                        self.cursor <= n,
                        n == self.chars@.len(),
                        out@ =~= self.chars@.subrange(0, self.cursor as int) + s@.subrange(
                            0,
                            j as int,
                        ),
                    decreases k - j,
                {
                    out.push(s.get_char(j));
                    proof {
                        assert(out@ =~= self.chars@.subrange(0, self.cursor as int) + s@.subrange(
                            0,
                            (j + 1) as int,
                        ));
                    }
                    j += 1;
                }
                proof {
                    assert(s@.subrange(0, k as int) =~= s@);
                }
                let mut m: usize = self.cursor;
                while m < n
                    invariant
                        self.cursor <= m <= n,
                        n == self.chars@.len(),
                        k == s@.len(),
                        out@ =~= self.chars@.subrange(0, self.cursor as int) + s@
                            + self.chars@.subrange(self.cursor as int, m as int),
                    decreases n - m,
                {
                    out.push(self.chars[m]);
                    proof {
                        assert(out@ =~= self.chars@.subrange(0, self.cursor as int) + s@
                            + self.chars@.subrange(self.cursor as int, (m + 1) as int));
                    }
                    m += 1;
                }
                // The grown length, a usize, bounds the new cursor.
                let out_len = out.len();
                self.chars = out;
                self.cursor = self.cursor + k;
            },
            EditAction::Backspace => {
                if self.cursor > 0 {
                    self.cursor = self.cursor - 1;
                    self.chars.remove(self.cursor);
                }
            },
            EditAction::Delete => {
                if self.cursor < self.chars.len() {
                    self.chars.remove(self.cursor);
                }
            },
            EditAction::Move(m) => {
                self.move_cursor(*m);
            },
            EditAction::Select(m) => {
                self.move_cursor(*m);
            },
            EditAction::Scroll => {},
        }
    }

    /// Moves the cursor without touching the text.
    fn move_cursor(&mut self, m: Motion)
        requires
            old(self)@.wf(),
        ensures
            final(self)@.wf(),
            final(self)@.text == old(self)@.text,
            final(self)@.cursor == spec_move_cursor(old(self)@, m),
    {
        match m {
            Motion::Left => {
                if self.cursor > 0 {
                    self.cursor = self.cursor - 1;
                }
            },
            Motion::Right => {
                if self.cursor < self.chars.len() {
                    self.cursor = self.cursor + 1;
                }
            },
            Motion::LineStart => {
                let mut p: usize = self.cursor;
                while p > 0 && !(self.chars[p - 1] == '\n')
                    invariant
                        p <= self.cursor,
                        self.cursor <= self.chars@.len(),
                        spec_line_start(self.chars@, self.cursor as int) == spec_line_start(
                            self.chars@,
                            p as int,
                        ),
                    decreases p,
                {
                    p -= 1;
                }
                self.cursor = p;
            },
            Motion::LineEnd => {
                let n = self.chars.len();
                let mut p: usize = self.cursor;
                while p < n && !(self.chars[p] == '\n')
                    invariant
                        self.cursor <= p <= n,
                        n == self.chars@.len(),
                        spec_line_end(self.chars@, self.cursor as int) == spec_line_end(
                            self.chars@,
                            p as int,
                        ),
                    decreases n - p,
                {
                    p += 1;
                }
                self.cursor = p;
            },
        }
    }
}

} // verus!
