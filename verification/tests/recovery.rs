use proc_macro2::{Span, TokenStream, TokenTree};
use proc_macro_error::span::double_span;
use proc_macro_error::{
    Backend, Context, Diagnostic, Level, OptionExt, Outcome, ResultExt, Signal,
};

fn spans_of(source: &str) -> Vec<Span> {
    let tokens: TokenStream = source.parse().unwrap();
    tokens.into_iter().map(|t| t.span()).collect()
}

fn tokens(source: &str) -> TokenStream {
    source.parse().unwrap()
}

fn columns(stream: TokenStream) -> Vec<usize> {
    stream.into_iter().map(|t| t.span().start().column).collect()
}

fn running() -> Context {
    let mut ctx = Context::new(Backend::Fallback);
    ctx.enter();
    ctx
}

#[test]
fn a_foreign_error_comes_back_as_it_was_rendered() {
    let spans = spans_of("here there");
    let foreign = syn::Error::new(spans[1], "msg");
    let rendered = foreign.to_compile_error();
    let diag = Diagnostic::from(foreign);
    assert_eq!(diag.level(), Level::Error);
    assert_eq!(diag.message(), "msg");
    assert!(diag.children().is_empty());
    assert!(diag.attachments().is_empty());
    let mut again = TokenStream::new();
    diag.to_tokens(&mut again);
    assert_eq!(again.to_string(), rendered.to_string());
    assert_eq!(columns(again), columns(rendered));
}

#[test]
fn children_messages() {
    let spans = spans_of("a b c d");
    let mut main = syn::Error::new(spans[2], "main syn::Error");
    let child = syn::Error::new(spans[3], "child syn::Error");
    main.combine(child);
    let rendered = main.to_compile_error();
    let diag = Diagnostic::from_error(&main);
    assert_eq!(diag.message(), "main syn::Error");
    assert_eq!(diag.children().len(), 1);
    assert_eq!(diag.children()[0].message, "child syn::Error");
    assert_eq!(diag.span_range().0.start().column, 4);
    assert_eq!(diag.children()[0].start.start().column, 6);
    assert_eq!(diag.children()[0].end.start().column, 6);
    let mut again = TokenStream::new();
    diag.to_tokens(&mut again);
    assert_eq!(again.to_string(), rendered.to_string());
    assert_eq!(columns(again), vec![4, 4, 4, 6, 6, 6]);
}

#[test]
fn the_range_of_a_foreign_error_is_kept() {
    let input = tokens("first middle last");
    let foreign = syn::Error::new_spanned(input, "whole input");
    let diag = Diagnostic::from(foreign);
    let (start, end) = diag.span_range();
    assert_eq!(start.start().column, 0);
    assert_eq!(end.start().column, 13);
}

#[test]
fn escapes_are_resolved() {
    let foreign = syn::Error::new(Span::call_site(), "two\nlines");
    let diag = Diagnostic::from(foreign);
    assert_eq!(diag.message(), "two\nlines");
}

#[test]
fn a_quote_in_the_message_comes_back() {
    let foreign = syn::Error::new(Span::call_site(), "a\"b");
    let rendered = foreign.to_compile_error();
    let diag = Diagnostic::from(foreign);
    assert_eq!(diag.message(), "a\"b");
    assert_eq!(diag.message().chars().count(), 3);
    let mut again = TokenStream::new();
    diag.to_tokens(&mut again);
    assert_eq!(again.to_string(), rendered.to_string());
}

#[test]
fn any_message_makes_the_round_trip() {
    let messages = [
        "",
        "plain",
        "back\\slash",
        "tab\tand\rreturn",
        "quote ' and \" both",
        "nul \0 and 7",
        "caf\u{e9} \u{1F600} \u{301}",
        "main\n\n  = note: folded\n\n",
    ];
    for message in messages {
        let foreign = syn::Error::new(Span::call_site(), message);
        let rendered = foreign.to_compile_error();
        let diag = Diagnostic::from_error(&foreign);
        assert_eq!(diag.message(), message);
        let mut again = TokenStream::new();
        diag.to_tokens(&mut again);
        assert_eq!(again.to_string(), rendered.to_string());
        let back = Diagnostic::from_rendered(&again).unwrap();
        assert_eq!(back.message(), message);
    }
}

#[test]
fn a_diagnostic_with_notes_reads_back_as_it_is_shown() {
    let diag = Diagnostic::spanned(Span::call_site(), Level::Error, "say \"hi\"".to_string())
        .help("use a \\ here".to_string());
    let shown = diag.composed_message();
    let mut rendered = TokenStream::new();
    diag.to_tokens(&mut rendered);
    let back = Diagnostic::from_rendered(&rendered).unwrap();
    assert_eq!(back.message(), shown);
    assert!(back.attachments().is_empty());
}

#[test]
fn a_raw_string_is_no_quoted_literal() {
    assert!(Diagnostic::from_rendered(&tokens("compile_error!{ r\"raw\" }")).is_none());
    assert!(Diagnostic::from_rendered(&tokens("compile_error!{ b\"bytes\" }")).is_none());
    assert!(Diagnostic::from_rendered(&tokens("compile_error!{ 'c' }")).is_none());
    assert!(Diagnostic::from_rendered(&tokens("compile_error!{ c\"cstr\" }")).is_none());
}

#[test]
fn a_suffix_does_not_change_the_value() {
    let diag = Diagnostic::from_rendered(&tokens("compile_error!{ \"text\"suffix }")).unwrap();
    assert_eq!(diag.message(), "text");
}

#[test]
fn reading_our_own_rendering() {
    let spans = spans_of("a b c");
    let diag = Diagnostic::double_spanned(spans[0], spans[1], Level::Error, "main".to_string())
        .span_error(spans[2], "child".to_string());
    let mut rendered = TokenStream::new();
    diag.to_tokens(&mut rendered);
    let back = Diagnostic::from_rendered(&rendered).unwrap();
    assert_eq!(back.message(), "main");
    assert_eq!(back.level(), Level::Error);
    assert_eq!(back.span_range().0.start().column, 0);
    assert_eq!(back.span_range().1.start().column, 2);
    assert_eq!(back.children().len(), 1);
    assert_eq!(back.children()[0].message, "child");
    assert_eq!(back.children()[0].start.start().column, 4);
}

#[test]
fn other_delimiters_take_a_semicolon() {
    let diag = Diagnostic::from_rendered(&tokens(
        "compile_error!(\"round\"); compile_error![\"square\"]; compile_error!{\"curly\"}",
    ))
    .unwrap();
    assert_eq!(diag.message(), "round");
    let children: Vec<&str> = diag.children().iter().map(|c| c.message.as_str()).collect();
    assert_eq!(children, vec!["square", "curly"]);
    assert_eq!(diag.span_range().0.start().column, 0);
    assert_eq!(diag.span_range().1.start().column, 15);
}

#[test]
fn the_first_token_gives_the_first_span_whatever_it_is() {
    let diag = Diagnostic::from_rendered(&tokens("anything ? { \"text\" trailing }")).unwrap();
    assert_eq!(diag.message(), "text");
    assert_eq!(diag.span_range().0.start().column, 0);
    assert_eq!(diag.span_range().1.start().column, 13);
}

#[test]
fn a_literal_that_is_no_string_gives_nothing() {
    assert!(Diagnostic::from_rendered(&tokens("compile_error!{ 1234 }")).is_none());
    assert!(Diagnostic::from_rendered(&tokens("compile_error!{ 42 }")).is_none());
    assert!(Diagnostic::from_rendered(&tokens("compile_error!{ \"fine\" } x ! { 1.5 }")).is_none());
}

#[test]
fn an_escaped_literal_is_read_by_its_value() {
    let diag = Diagnostic::from_rendered(&tokens(
        "compile_error!{ \"a\\\"b\" } compile_error!{ \"\\x41\\u{42}\\n\" }",
    ))
    .unwrap();
    assert_eq!(diag.message(), "a\"b");
    assert_eq!(diag.children()[0].message, "AB\n");
}

#[test]
fn shortcuts_on_a_result_that_holds_a_diagnostic() {
    let mut ctx = running();
    let err = Diagnostic::spanned(Span::call_site(), Level::Error, "first".to_string());
    assert_eq!(
        proc_macro_error::ext::unwrap_or_abort::<u8>(Err(err), &mut ctx),
        Err(Signal::Abort)
    );
    let err = Diagnostic::spanned(Span::call_site(), Level::Error, "second".to_string());
    assert_eq!(
        proc_macro_error::ext::expect_or_abort::<u8>(Err(err), &mut ctx, "BOOM"),
        Err(Signal::Abort)
    );
    assert_eq!(proc_macro_error::ext::unwrap_or_abort::<u8>(Ok(4), &mut ctx), Ok(4));
    assert_eq!(
        proc_macro_error::ext::expect_or_abort::<u8>(Ok(5), &mut ctx, "unused"),
        Ok(5)
    );
    let out = ctx.finish(Outcome::<TokenStream, String>::Aborted, false);
    assert_eq!(
        out.unwrap().to_string(),
        "compile_error ! { \"first\" } compile_error ! { \"BOOM: second\" }"
    );
}

#[test]
fn what_is_no_run_of_invocations_gives_nothing() {
    assert!(Diagnostic::from_rendered(&TokenStream::new()).is_none());
    assert!(Diagnostic::from_rendered(&tokens("compile_error")).is_none());
    assert!(Diagnostic::from_rendered(&tokens("compile_error !")).is_none());
    assert!(Diagnostic::from_rendered(&tokens("compile_error ! \"no group\"")).is_none());
    assert!(Diagnostic::from_rendered(&tokens("compile_error ! { }")).is_none());
    assert!(Diagnostic::from_rendered(&tokens("compile_error ! { not_a_literal }")).is_none());
    assert!(Diagnostic::from_rendered(&tokens("compile_error ! { 7 }")).is_none());
    assert!(Diagnostic::from_rendered(&tokens("compile_error ! ( \"no semicolon\" )")).is_none());
    assert!(Diagnostic::from_rendered(&tokens("compile_error ! [ \"no semicolon\" ]")).is_none());
    assert!(
        Diagnostic::from_rendered(&tokens("compile_error ! { \"fine\" } compile_error !"))
            .is_none()
    );
    assert!(
        Diagnostic::from_rendered(&tokens("compile_error ! { \"fine\" } ; ; { 1 }")).is_none()
    );
}

#[test]
fn the_span_of_tokens() {
    let (start, end) = double_span(&tokens("first middle last"));
    assert_eq!(start.start().column, 0);
    assert_eq!(end.start().column, 13);
    let (start, end) = double_span(&tokens("     only"));
    assert_eq!(start.start().column, 5);
    assert_eq!(end.start().column, 5);
    let (start, end) = double_span(&tokens("head ( inside )"));
    assert_eq!(start.start().column, 0);
    assert_eq!(end.start().column, 5);
    let (start, end) = double_span(&TokenStream::new());
    assert_eq!(format!("{:?}", start), format!("{:?}", end));
}

#[test]
fn multiple_tokens() {
    let input = tokens("struct Input { field : u8 }");
    let (start, end) = double_span(&input);
    let trees: Vec<TokenTree> = input.into_iter().collect();
    assert_eq!(start.start().column, trees[0].span().start().column);
    assert_eq!(end.start().column, trees[2].span().start().column);
    let diag = Diagnostic::double_spanned(start, end, Level::Error, "...".to_string());
    let mut out = TokenStream::new();
    diag.to_tokens(&mut out);
    assert_eq!(columns(out), vec![0, 0, 13]);
}

#[test]
fn result_unwrap_or_abort() {
    let mut ctx = running();
    let fine: Result<u8, Diagnostic> = Ok(3);
    assert_eq!(fine.unwrap_or_abort(&mut ctx), Ok(3));
    assert!(!ctx.is_dirty());
    let err = Diagnostic::spanned(
        Span::call_site(),
        Level::Error,
        "Result::unwrap_or_abort() test".to_string(),
    );
    let res: Result<(), Diagnostic> = Err(err);
    assert_eq!(res.unwrap_or_abort(&mut ctx), Err(Signal::Abort));
    let out = ctx.finish(Outcome::<TokenStream, String>::Aborted, false);
    assert_eq!(
        out.unwrap().to_string(),
        "compile_error ! { \"Result::unwrap_or_abort() test\" }"
    );
}

#[test]
fn result_expect_or_abort() {
    let mut ctx = running();
    let fine: Result<u8, Diagnostic> = Ok(3);
    assert_eq!(fine.expect_or_abort(&mut ctx, "BOOM"), Ok(3));
    assert!(!ctx.is_dirty());
    let err = Diagnostic::spanned(
        Span::call_site(),
        Level::Error,
        "Result::expect_or_abort() test".to_string(),
    );
    let res: Result<(), Diagnostic> = Err(err);
    assert_eq!(res.expect_or_abort(&mut ctx, "BOOM"), Err(Signal::Abort));
    let out = ctx.finish(Outcome::<TokenStream, String>::Aborted, false);
    assert_eq!(
        out.unwrap().to_string(),
        "compile_error ! { \"BOOM: Result::expect_or_abort() test\" }"
    );
}

#[test]
fn a_foreign_error_in_a_result() {
    let mut ctx = running();
    let res: Result<(), syn::Error> = Err(syn::Error::new(Span::call_site(), "error"));
    assert_eq!(
        res.expect_or_abort(&mut ctx, "Result::expect_or_abort() test"),
        Err(Signal::Abort)
    );
    let res: Result<(), syn::Error> = Err(syn::Error::new(
        Span::call_site(),
        "Result::unwrap_or_abort() test",
    ));
    assert_eq!(res.unwrap_or_abort(&mut ctx), Err(Signal::Abort));
    let out = ctx.finish(Outcome::<TokenStream, String>::Aborted, false);
    assert_eq!(
        out.unwrap().to_string(),
        "compile_error ! { \"Result::expect_or_abort() test: error\" } compile_error ! { \"Result::unwrap_or_abort() test\" }"
    );
}

#[test]
fn option_ext() {
    let mut ctx = running();
    assert_eq!(Some(5u8).expect_or_abort(&mut ctx, "unused"), Ok(5));
    assert!(!ctx.is_dirty());
    let none: Option<Diagnostic> = None;
    assert!(matches!(
        none.expect_or_abort(&mut ctx, "Option::expect_or_abort() test"),
        Err(Signal::Abort)
    ));
    let out = ctx.finish(Outcome::<TokenStream, String>::Aborted, false);
    assert_eq!(
        out.unwrap().to_string(),
        "compile_error ! { \"Option::expect_or_abort() test\" }"
    );
}

#[test]
fn shortcuts_outside_a_pass_are_misuse() {
    let mut ctx = Context::new(Backend::Fallback);
    let none: Option<u8> = None;
    assert_eq!(none.expect_or_abort(&mut ctx, "lost"), Err(Signal::Misuse));
    let err = Diagnostic::spanned(Span::call_site(), Level::Error, "lost".to_string());
    let res: Result<u8, Diagnostic> = Err(err);
    assert_eq!(res.unwrap_or_abort(&mut ctx), Err(Signal::Misuse));
    assert!(!ctx.is_dirty());
    let fine: Result<u8, Diagnostic> = Ok(1);
    assert_eq!(fine.unwrap_or_abort(&mut ctx), Ok(1));
}
