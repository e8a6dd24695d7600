//! The plain data behind a displayed buffer: highlighted text, rows, and
//! the buffer itself.

use crate::theme::Hsla;
use vstd::prelude::*;

verus! {

/// A run of text under one color.
#[derive(Clone, Debug, PartialEq)]
pub struct HighlightedText {
    pub text: String,
    pub color: Hsla,
}

/// The spec-level shape of a highlighted run.
pub open spec fn text_shape(t: HighlightedText) -> (Seq<char>, Hsla) {
    (t.text@, t.color)
}

/// One line as a sequence of highlighted runs.
#[derive(Clone, Debug, PartialEq)]
pub struct HighlightedLine {
    pub highlighted_texts: Vec<HighlightedText>,
}

/// The spec-level shape of a line: its runs in order.
pub open spec fn line_shape(l: HighlightedLine) -> Seq<(Seq<char>, Hsla)> {
    l.highlighted_texts@.map(|_i: int, t: HighlightedText| text_shape(t))
}

/// A cursor position within a buffer.
#[derive(Clone, Copy, Debug, PartialEq, Eq, Structural)]
pub struct Cursor {
    pub row: u32,
    pub column: u32,
}

/// One displayed row of a buffer.
#[derive(Clone, Debug, PartialEq)]
pub struct BufferRow {
    pub line_number: usize,
    pub code_action: bool,
    pub current: bool,
    pub line: Option<HighlightedLine>,
    pub cursors: Option<Vec<Cursor>>,
    pub status: crate::elements::GitStatus,
    pub show_line_number: bool,
}

/// The spec-level shape of a row.
pub open spec fn row_shape(r: BufferRow) -> (
    usize,
    bool,
    bool,
    Option<Seq<(Seq<char>, Hsla)>>,
    Option<Seq<Cursor>>,
    crate::elements::GitStatus,
    bool,
) {
    (
        r.line_number,
        r.code_action,
        r.current,
        match r.line {
            Some(l) => Some(line_shape(l)),
            None => None,
        },
        match r.cursors {
            Some(c) => Some(c@),
            None => None,
        },
        r.status,
        r.show_line_number,
    )
}

/// The rows of a buffer, with the line-number gutter setting.
#[derive(Clone, Debug, PartialEq)]
pub struct BufferRows {
    pub show_line_numbers: bool,
    pub rows: Vec<BufferRow>,
}

impl Default for BufferRows {
    /// No rows, with the line-number gutter shown.
    fn default() -> (r: BufferRows)
        ensures
            r.show_line_numbers,
            r.rows@ == Seq::<BufferRow>::empty(),
    {
        BufferRows { show_line_numbers: true, rows: Vec::new() }
    }
}

/// A buffer as displayed: a title, a path, a language, and its rows.
#[derive(Clone, Debug, PartialEq)]
pub struct Buffer {
    pub title: String,
    pub path: String,
    pub language: String,
    pub rows: Option<BufferRows>,
}

impl Buffer {
    /// An empty, untitled buffer with no rows.
    pub fn new() -> (b: Buffer)
        ensures
            b.title@ == Seq::<char>::empty(),
            b.path@ == Seq::<char>::empty(),
            b.language@ == Seq::<char>::empty(),
            b.rows is None,
    {
        Buffer { title: String::new(), path: String::new(), language: String::new(), rows: None }
    }

    /// The same buffer under another title.
    pub fn set_title(self, title: String) -> (b: Buffer)
        ensures
            b.title@ == title@,
            b.path == self.path,
            b.language == self.language,
            b.rows == self.rows,
    {
        Buffer { title, ..self }
    }

    /// The same buffer under another path.
    pub fn set_path(self, path: String) -> (b: Buffer)
        ensures
            b.path@ == path@,
            b.title == self.title,
            b.language == self.language,
            b.rows == self.rows,
    {
        Buffer { path, ..self }
    }

    /// The same buffer under another language.
    pub fn set_language(self, language: String) -> (b: Buffer)
        ensures
            b.language@ == language@,
            b.title == self.title,
            b.path == self.path,
            b.rows == self.rows,
    {
        Buffer { language, ..self }
    }

    /// The same buffer with other rows.
    pub fn set_rows(self, rows: Option<BufferRows>) -> (b: Buffer)
        ensures
            b.rows == rows,
            b.title == self.title,
            b.path == self.path,
            b.language == self.language,
    {
        Buffer { rows, ..self }
    }
}

/// A symbol in the breadcrumb: a sequence of highlighted runs.
#[derive(Clone, Debug, PartialEq)]
pub struct Symbol(pub Vec<HighlightedText>);

} // verus!
