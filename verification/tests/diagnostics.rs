use proc_macro2::Span;
use proc_macro_error::diagnostic::{Diagnostic, Level, SuggestionKind};

fn error(message: &str) -> Diagnostic {
    Diagnostic::spanned(Span::call_site(), Level::Error, message.to_string())
}

#[test]
fn message_is_kept_without_notes() {
    let diag = error("boom");
    assert_eq!(diag.message(), "boom");
    assert_eq!(diag.composed_message(), "boom");
    assert_eq!(diag.level(), Level::Error);
    assert!(diag.attachments().is_empty());
    assert!(diag.children().is_empty());
}

#[test]
fn message_without_notes_gets_no_line_feed() {
    assert_eq!(error("").composed_message(), "");
    assert_eq!(error("line\n").composed_message(), "line\n");
}

#[test]
fn one_note_is_folded_into_the_message() {
    let diag = error("a").help("b".to_string());
    assert_eq!(diag.composed_message(), "a\n\n  = help: b\n\n");
    assert_eq!(diag.message(), "a");
}

#[test]
fn notes_keep_their_order() {
    let diag = error("main")
        .note("first".to_string())
        .help("second".to_string())
        .note("third".to_string());
    assert_eq!(
        diag.composed_message(),
        "main\n\n  = note: first\n  = help: second\n  = note: third\n\n"
    );
    let kinds: Vec<SuggestionKind> = diag.attachments().iter().map(|a| a.kind).collect();
    assert_eq!(
        kinds,
        vec![SuggestionKind::Note, SuggestionKind::Help, SuggestionKind::Note]
    );
}

#[test]
fn text_that_ends_its_line_gets_no_second_line_feed() {
    let diag = error("main\n").note("note\n".to_string());
    assert_eq!(diag.composed_message(), "main\n\n  = note: note\n\n");
}

#[test]
fn empty_texts_still_end_their_lines() {
    let diag = error("").note(String::new());
    assert_eq!(diag.composed_message(), "\n\n  = note: \n\n");
}

#[test]
fn spanned_notes_read_like_plain_notes() {
    let span = Span::call_site();
    let diag = error("main")
        .span_help(span, "look here".to_string())
        .span_note(span, "and here".to_string());
    assert_eq!(
        diag.composed_message(),
        "main\n\n  = help: look here\n  = note: and here\n\n"
    );
    assert!(diag.attachments()[0].span.is_some());
    assert!(diag.attachments()[1].span.is_some());
    assert!(error("x").help("y".to_string()).attachments()[0].span.is_none());
}

#[test]
fn the_word_decides_the_kind_of_a_suggestion() {
    assert_eq!(SuggestionKind::from_word("help"), SuggestionKind::Help);
    assert_eq!(SuggestionKind::from_word("hint"), SuggestionKind::Help);
    assert_eq!(SuggestionKind::from_word("note"), SuggestionKind::Note);
    assert_eq!(SuggestionKind::from_word("yay"), SuggestionKind::Note);
    assert_eq!(SuggestionKind::from_word(""), SuggestionKind::Note);
    assert_eq!(SuggestionKind::from_word("Help"), SuggestionKind::Note);
    assert_eq!(SuggestionKind::Help.name(), "help");
    assert_eq!(SuggestionKind::Note.name(), "note");
}

#[test]
fn suggestions_by_word() {
    let span = Span::call_site();
    let diag = error("m")
        .suggestion("hint", "a".to_string())
        .suggestion("wow", "b".to_string())
        .span_suggestion(span, "help", "c".to_string())
        .span_suggestion(span, "note", "d".to_string());
    assert_eq!(
        diag.composed_message(),
        "m\n\n  = help: a\n  = note: b\n  = help: c\n  = note: d\n\n"
    );
}

#[test]
fn abort_notes() {
    let span = Span::call_site();
    let some_note = Some("Some note");
    let none_note: Option<&'static str> = None;
    let mut diag = error(&format!("This is {} error", "an"))
        .suggestion("note", "simple note".to_string())
        .suggestion("help", "simple help".to_string())
        .suggestion("hint", "simple hint".to_string())
        .suggestion("yay", "simple yay".to_string())
        .suggestion("note", format!("format {}", "note"));
    if let Some(text) = some_note {
        diag = diag.suggestion("note", text.to_string());
    }
    if let Some(text) = none_note {
        diag = diag.suggestion("note", text.to_string());
    }
    diag = diag
        .span_suggestion(span, "note", "spanned simple note".to_string())
        .span_suggestion(span, "note", format!("spanned format {}", "note"));
    if let Some(text) = some_note {
        diag = diag.span_suggestion(span, "note", text.to_string());
    }
    if let Some(text) = none_note {
        diag = diag.span_suggestion(span, "note", text.to_string());
    }
    assert_eq!(
        diag.composed_message(),
        "This is an error\n\n  = note: simple note\n  = help: simple help\n  = help: simple hint\n  = note: simple yay\n  = note: format note\n  = note: Some note\n  = note: spanned simple note\n  = note: spanned format note\n  = note: Some note\n\n"
    );
}

#[test]
fn a_prefix_goes_before_the_main_message() {
    let diag = error("Result::expect_or_abort() test")
        .note("kept".to_string())
        .prefixed("BOOM");
    assert_eq!(diag.message(), "BOOM: Result::expect_or_abort() test");
    assert_eq!(diag.attachments().len(), 1);
}

#[test]
fn children_are_added_in_order() {
    let span = Span::call_site();
    let diag = error("main macro message")
        .span_error(span, "child message".to_string())
        .double_span_error(span, span, "other child".to_string());
    assert_eq!(diag.message(), "main macro message");
    let messages: Vec<&str> = diag.children().iter().map(|c| c.message.as_str()).collect();
    assert_eq!(messages, vec!["child message", "other child"]);
    assert_eq!(diag.composed_message(), "main macro message");
}

#[test]
fn a_new_diagnostic_points_to_one_place() {
    let diag = Diagnostic::new(Level::Warning, "careful".to_string());
    assert_eq!(diag.level(), Level::Warning);
    assert_eq!(diag.message(), "careful");
    let (start, end) = diag.span_range();
    assert_eq!(format!("{:?}", start), format!("{:?}", end));
}

#[test]
fn the_range_of_a_diagnostic_is_kept() {
    let tokens: proc_macro2::TokenStream = "first second".parse().unwrap();
    let spans: Vec<Span> = tokens.into_iter().map(|t| t.span()).collect();
    let diag = Diagnostic::double_spanned(spans[0], spans[1], Level::Error, "m".to_string());
    let (start, end) = diag.span_range();
    assert_eq!(start.start().column, 0);
    assert_eq!(end.start().column, 6);
    let single = Diagnostic::spanned(spans[1], Level::Error, "m".to_string());
    let (start, end) = single.span_range();
    assert_eq!(start.start().column, 6);
    assert_eq!(end.start().column, 6);
}
