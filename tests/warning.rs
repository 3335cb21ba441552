use colored::Color;
use prisma_diagnostics::{SchemaWarning, SchemaWarningColorer, Span};

const SCHEMA: &str = "model A {\nemail String\n}";

#[test]
fn accessors_return_constructor_arguments() {
    let w = SchemaWarning::new("Field is deprecated".to_string(), Span::new(10, 15));
    assert_eq!(w.message(), "Field is deprecated");
    assert_eq!(w.span(), Span::new(10, 15));
    assert_eq!(w.span().start, 10);
    assert_eq!(w.span().end, 15);
}

#[test]
fn equal_fields_make_equal_warnings() {
    let a = SchemaWarning::new("m".to_string(), Span::new(1, 2));
    let b = SchemaWarning::new("m".to_string(), Span::new(1, 2));
    assert!(a == b);
    assert_eq!(a.clone(), b);
}

#[test]
fn differing_message_or_span_makes_unequal_warnings() {
    let a = SchemaWarning::new("m".to_string(), Span::new(1, 2));
    assert!(a != SchemaWarning::new("n".to_string(), Span::new(1, 2)));
    assert!(a != SchemaWarning::new("m".to_string(), Span::new(1, 3)));
    assert!(a != SchemaWarning::new("m".to_string(), Span::new(0, 2)));
}

#[test]
fn title_is_warning() {
    assert_eq!(SchemaWarningColorer {}.title(), "warning");
}

#[test]
fn primary_color_is_bright_yellow_over_the_token() {
    let c = SchemaWarningColorer {};
    let styled = c.primary_color("email");
    assert_eq!(styled.input, "email");
    assert_eq!(styled.fgcolor, Some(Color::BrightYellow));
    assert_eq!(styled.bgcolor, None);
    assert_eq!(styled, c.primary_color("email"));
    assert_ne!(styled, c.primary_color("emails"));
}

#[test]
fn pretty_print_points_at_the_offending_token() {
    let w = SchemaWarning::new("Field is deprecated".to_string(), Span::new(10, 15));
    let s = w.pretty_print("schema.prisma", SCHEMA).unwrap();
    assert_eq!(s.title, "warning");
    assert_eq!(s.message, "Field is deprecated");
    assert_eq!(s.file_name, "schema.prisma");
    assert_eq!(s.line_index, 1);
    assert_eq!(s.column_index, 0);
    assert_eq!(s.line_prefix, "");
    assert_eq!(s.offending, "email");
    assert_eq!(s.line_suffix, " String");
    assert_eq!(s.highlighted.input, "email");
    assert_eq!(s.highlighted.fgcolor, Some(Color::BrightYellow));
}

#[test]
fn pretty_print_is_deterministic() {
    let w = SchemaWarning::new("Field is deprecated".to_string(), Span::new(16, 22));
    let a = w.pretty_print("schema.prisma", SCHEMA).unwrap();
    let b = w.pretty_print("schema.prisma", SCHEMA).unwrap();
    assert_eq!(a.offending, "String");
    assert_eq!(a.line_prefix, "email ");
    assert_eq!(a.column_index, 6);
    assert_eq!(format!("{:?}", a), format!("{:?}", b));
}

#[test]
fn highlight_stops_at_the_end_of_the_line() {
    let w = SchemaWarning::new("spans lines".to_string(), Span::new(4, 20));
    let s = w.pretty_print("schema.prisma", SCHEMA).unwrap();
    assert_eq!(s.line_index, 0);
    assert_eq!(s.column_index, 4);
    assert_eq!(s.line_prefix, "mode");
    assert_eq!(s.offending, "l A {");
    assert_eq!(s.line_suffix, "");
}

#[test]
fn empty_span_highlights_nothing() {
    let w = SchemaWarning::new("here".to_string(), Span::new(24, 24));
    let s = w.pretty_print("schema.prisma", SCHEMA).unwrap();
    assert_eq!(s.line_index, 2);
    assert_eq!(s.column_index, 1);
    assert_eq!(s.line_prefix, "}");
    assert_eq!(s.offending, "");
    assert_eq!(s.line_suffix, "");
    let empty = SchemaWarning::new("empty".to_string(), Span::new(0, 0));
    let e = empty.pretty_print("empty.prisma", "").unwrap();
    assert_eq!(e.line_index, 0);
    assert_eq!(e.offending, "");
}

#[test]
fn span_outside_the_text_is_rejected() {
    let past_end = SchemaWarning::new("m".to_string(), Span::new(20, 25));
    assert!(past_end.pretty_print("schema.prisma", SCHEMA).is_none());
    let reversed = SchemaWarning::new("m".to_string(), Span::new(5, 4));
    assert!(reversed.pretty_print("schema.prisma", SCHEMA).is_none());
}

#[test]
fn spans_count_characters() {
    let w = SchemaWarning::new("m".to_string(), Span::new(3, 4));
    let s = w.pretty_print("s.prisma", "äö\nüx").unwrap();
    assert_eq!(s.line_index, 1);
    assert_eq!(s.line_prefix, "");
    assert_eq!(s.offending, "ü");
    assert_eq!(s.line_suffix, "x");
}
