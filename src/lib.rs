//! Non-fatal diagnostics of the schema parser: a warning tied to a span of
//! source text, and the snippet that shows it to a reader.

mod colorer;
mod pretty_print;
mod span;
mod warning;

pub use colorer::{
    bright_yellow_of, lemma_primary_color_deterministic, warning_title, SchemaWarningColorer,
};
pub use pretty_print::{
    line_end, line_start, newline_count, render_snippet, snippet_of, snippet_view, Snippet,
    SnippetView,
};
pub use span::Span;
pub use warning::{
    lemma_pretty_print_deterministic, lemma_round_trip, lemma_structural_equality,
    SchemaWarning, WarningView,
};
