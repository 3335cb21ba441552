use crate::colorer::{bright_yellow_of, warning_title, SchemaWarningColorer};
use crate::span::Span;
use colored::ColoredString;
use vstd::prelude::*;

verus! {

/// How many line breaks `s` holds.
pub open spec fn newline_count(s: Seq<char>) -> nat
    decreases s.len(),
{
    if s.len() == 0 {
        0
    } else {
        newline_count(s.drop_last()) + if s.last() == '\n' {
            1nat
        } else {
            0nat
        }
    }
}

/// Where the line that holds offset `pos` of `t` begins: just after the last
/// line break before `pos`, or at 0.
pub open spec fn line_start(t: Seq<char>, pos: int) -> int
    decreases pos,
{
    if pos <= 0 {
        0
    } else if t[pos - 1] == '\n' {
        pos
    } else {
        line_start(t, pos - 1)
    }
}

/// Where the line that holds offset `pos` of `t` ends: at the first line
/// break from `pos` on, or at the end of `t`.
pub open spec fn line_end(t: Seq<char>, pos: int) -> int
    decreases t.len() - pos,
{
    if pos >= t.len() {
        t.len() as int
    } else if t[pos] == '\n' {
        pos
    } else {
        line_end(t, pos + 1)
    }
}

/// A laid-out diagnostic, as plain values.
pub struct SnippetView {
    pub title: Seq<char>,
    pub message: Seq<char>,
    pub file_name: Seq<char>,
    pub line_index: nat,
    pub column_index: nat,
    pub line_prefix: Seq<char>,
    pub offending: Seq<char>,
    pub line_suffix: Seq<char>,
    pub highlighted: ColoredString,
}

/// The layout of a warning with message `message` at `span` of `text`.
/// The span must lie within the text. The highlight starts at the span's
/// start and stops at its end or at the end of that line, whichever comes
/// first; lines and columns are counted from 0.
pub open spec fn snippet_of(file_name: Seq<char>, text: Seq<char>, span: Span, message: Seq<char>)
    -> Option<SnippetView>
{
    if span.start > span.end || span.end > text.len() {
        None
    } else {
        let s = span.start as int;
        let ls = line_start(text, s);
        let le = line_end(text, s);
        let he = if (span.end as int) < le {
            span.end as int
        } else {
            le
        };
        Some(
            SnippetView {
                title: warning_title(),
                message,
                file_name,
                line_index: newline_count(text.subrange(0, s)),
                column_index: (s - ls) as nat,
                line_prefix: text.subrange(ls, s),
                offending: text.subrange(s, he),
                line_suffix: text.subrange(he, le),
                highlighted: bright_yellow_of(text.subrange(s, he)),
            },
        )
    }
}

/// A laid-out diagnostic: the title and message, the file and position, and
/// the line split around the offending text, which also comes highlighted.
#[derive(Debug)]
pub struct Snippet {
    pub title: String,
    pub message: String,
    pub file_name: String,
    pub line_index: usize,
    pub column_index: usize,
    pub line_prefix: String,
    pub offending: String,
    pub line_suffix: String,
    pub highlighted: ColoredString,
}

impl View for Snippet {
    type V = SnippetView;

    open spec fn view(&self) -> SnippetView {
        SnippetView {
            title: self.title@,
            message: self.message@,
            file_name: self.file_name@,
            line_index: self.line_index as nat,
            column_index: self.column_index as nat,
            line_prefix: self.line_prefix@,
            offending: self.offending@,
            line_suffix: self.line_suffix@,
            highlighted: self.highlighted,
        }
    }
}

pub open spec fn snippet_view(r: Option<Snippet>) -> Option<SnippetView> {
    match r {
        Some(s) => Some(s@),
        None => None,
    }
}

/// Lays out a diagnostic with message `description` at `span` of `text`,
/// titled and highlighted by `colorer`.
pub fn render_snippet(
    file_name: &str,
    text: &str,
    span: Span,
    description: &str,
    colorer: &SchemaWarningColorer,
) -> (r: Option<Snippet>)
    ensures
        snippet_view(r) == snippet_of(file_name@, text@, span, description@),
{
    let len = text.unicode_len();
    if span.start > span.end || span.end > len {
        return None;
    }
    let ghost t = text@;
    let mut i: usize = 0;
    let mut lines: usize = 0;
    let mut ls: usize = 0;
    while i < span.start
        invariant
            i <= span.start <= len,
            len == t.len(),
            t == text@,
            lines as nat == newline_count(t.subrange(0, i as int)),
            ls as int == line_start(t, i as int),
            lines <= i,
            ls <= i,
        decreases span.start - i,
    {
        let c = text.get_char(i);
        assert(t.subrange(0, i + 1).drop_last() =~= t.subrange(0, i as int));
        if c == '\n' {
            lines = lines + 1;
            ls = i + 1;
        }
        i = i + 1;
    }
    let mut j: usize = span.start;
    while j < len && text.get_char(j) != '\n'
        invariant
            span.start <= j <= len,
            len == t.len(),
            t == text@,
            line_end(t, j as int) == line_end(t, span.start as int),
        decreases len - j,
    {
        j = j + 1;
    }
    let he: usize = if span.end < j {
        span.end
    } else {
        j
    };
    let offending = text.substring_char(span.start, he);
    Some(
        Snippet {
            title: String::from_str(colorer.title()),
            message: String::from_str(description),
            file_name: String::from_str(file_name),
            line_index: lines,
            column_index: span.start - ls,
            line_prefix: String::from_str(text.substring_char(ls, span.start)),
            offending: String::from_str(offending),
            line_suffix: String::from_str(text.substring_char(he, j)),
            highlighted: colorer.primary_color(offending),
        },
    )
}

} // verus!
