use colored::{ColoredString, Colorize};
use vstd::prelude::*;

verus! {

#[verifier::external_type_specification]
#[verifier::external_body]
pub struct ExColoredString(ColoredString);

/// What colored's `bright_yellow` makes of a token.
pub uninterp spec fn bright_yellow_of(token: Seq<char>) -> ColoredString;

/// Relies on colored's `Colorize::bright_yellow` for `&str`: it builds a
/// `ColoredString` from the token's text and a bright yellow foreground and
/// reads nothing else, so equal tokens give equal values.
#[verifier::external_body]
fn bright_yellow(token: &str) -> (r: ColoredString)
    ensures
        r == bright_yellow_of(token@),
{
    token.bright_yellow()
}

/// The title that names the warning class of diagnostics.
pub open spec fn warning_title() -> Seq<char> {
    seq!['w', 'a', 'r', 'n', 'i', 'n', 'g']
}

/// How warnings are presented: their title, and the colour of the source
/// text they point at. It holds no state; one value serves every warning.
pub struct SchemaWarningColorer {}

impl SchemaWarningColorer {
    /// The fixed title of warnings.
    pub fn title(&self) -> (r: &'static str)
        ensures
            r@ == warning_title(),
    {
        let r = "warning";
        proof {
            reveal_strlit("warning");
            assert(r@ =~= warning_title());
        }
        r
    }

    /// `token` in the warning's colour, bright yellow.
    pub fn primary_color(&self, token: &str) -> (r: ColoredString)
        ensures
            r == bright_yellow_of(token@),
    {
        bright_yellow(token)
    }
}

/// The primary colour is a function of the token alone: colouring the same
/// token twice gives the same styled value.
pub proof fn lemma_primary_color_deterministic(token: Seq<char>, r1: ColoredString, r2: ColoredString)
    requires
        r1 == bright_yellow_of(token),
        r2 == bright_yellow_of(token),
    ensures
        r1 == r2,
{
}

} // verus!
