use crate::colorer::SchemaWarningColorer;
use crate::pretty_print::{render_snippet, snippet_of, snippet_view, Snippet};
use crate::span::Span;
use vstd::prelude::*;
use vstd::std_specs::cmp::PartialEqSpec;

verus! {

/// What a warning holds: its message and the span it applies to.
pub struct WarningView {
    pub message: Seq<char>,
    pub span: Span,
}

/// A non-fatal warning emitted by the schema parser. Nothing changes it once
/// it is built: every method takes it by shared reference.
#[derive(Debug, Clone)]
pub struct SchemaWarning {
    message: String,
    span: Span,
}

impl View for SchemaWarning {
    type V = WarningView;

    closed spec fn view(&self) -> WarningView {
        WarningView { message: self.message@, span: self.span }
    }
}

impl SchemaWarning {
    /// Builds a warning from its message and span, both kept as given.
    /// Prefer purpose-specific constructors where the caller has one.
    pub fn new(message: String, span: Span) -> (r: SchemaWarning)
        ensures
            r@ == (WarningView { message: message@, span }),
    {
        SchemaWarning { message, span }
    }

    /// The user-facing warning message.
    pub fn message(&self) -> (r: &str)
        ensures
            r@ == self@.message,
    {
        self.message.as_str()
    }

    /// The source span the warning applies to.
    pub fn span(&self) -> (r: Span)
        ensures
            r == self@.span,
    {
        self.span
    }

    /// Lays the warning out against the file it came from: the title, the
    /// message, the position and the offending part of its line, highlighted
    /// by the warning's colour. `None` where the span does not lie within
    /// `text` (its start after its end, or its end past the last character).
    pub fn pretty_print(&self, file_name: &str, text: &str) -> (r: Option<Snippet>)
        ensures
            snippet_view(r) == snippet_of(file_name@, text@, self@.span, self@.message),
    {
        render_snippet(file_name, text, self.span(), self.message(), &SchemaWarningColorer {})
    }
}

impl PartialEq for SchemaWarning {
    fn eq(&self, other: &SchemaWarning) -> (r: bool) {
        self.span == other.span && self.message == other.message
    }
}

impl vstd::std_specs::cmp::PartialEqSpecImpl for SchemaWarning {
    open spec fn obeys_eq_spec() -> bool {
        true
    }

    open spec fn eq_spec(&self, other: &SchemaWarning) -> bool {
        self@ == other@
    }
}

impl Eq for SchemaWarning {

}

/// A warning gives back exactly what it was built from: the view that `new`
/// establishes is the one that `message` and `span` read.
pub proof fn lemma_round_trip(message: Seq<char>, span: Span, w: SchemaWarning)
    requires
        w@ == (WarningView { message, span }),
    ensures
        w@.message == message,
        w@.span == span,
{
}

/// Two warnings compare equal exactly when their messages and their spans
/// are the same.
pub proof fn lemma_structural_equality(a: SchemaWarning, b: SchemaWarning)
    ensures
        a.eq_spec(&b) <==> (a@.message == b@.message && a@.span == b@.span),
{
}

/// Laying out the same warning against the same file name and text twice
/// gives the same result.
pub proof fn lemma_pretty_print_deterministic(
    w: SchemaWarning,
    file_name: Seq<char>,
    text: Seq<char>,
    r1: Option<Snippet>,
    r2: Option<Snippet>,
)
    requires
        snippet_view(r1) == snippet_of(file_name, text, w@.span, w@.message),
        snippet_view(r2) == snippet_of(file_name, text, w@.span, w@.message),
    ensures
        snippet_view(r1) == snippet_view(r2),
{
}

} // verus!
