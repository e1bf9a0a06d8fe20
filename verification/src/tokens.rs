//! The token types of `proc_macro2` as the verifier sees them, and the few
//! calls into that crate and into `syn` that the rest of the library is built
//! on. Nothing in this file is proved: every contract here says what the
//! outside function does, and the proofs elsewhere rest on it.

use vstd::prelude::*;
use proc_macro2::{Delimiter, Group, Ident, Punct, Spacing, Span, TokenStream, TokenTree};

verus! {

/// `proc_macro2::Span`: a region of source code. Carried, never inspected.
#[verifier::external_type_specification]
#[verifier::external_body]
pub struct ExSpan(proc_macro2::Span);

/// `proc_macro2::TokenStream`: a sequence of token trees.
#[verifier::external_type_specification]
#[verifier::external_body]
pub struct ExTokenStream(proc_macro2::TokenStream);

/// `proc_macro2::TokenTree`: one token, or a delimited group of tokens.
#[verifier::external_type_specification]
#[verifier::external_body]
pub struct ExTokenTree(proc_macro2::TokenTree);

/// How a group of tokens is delimited.
#[derive(Clone, Copy, Debug, PartialEq, Eq, Structural)]
pub enum Delim {
    Parenthesis,
    Brace,
    Bracket,
    Invisible,
}

/// What one token tree is: its kind, its span and what it holds. A group
/// holds the trees between its delimiters. A literal holds the text it
/// stands for where it is a string literal in double quotes, and nothing
/// where it is a literal of another kind.
pub enum Shape {
    Group { delimiter: Delim, span: Span, stream: Seq<Shape> },
    Ident { name: Seq<char>, span: Span },
    Punct { ch: char, joint: bool, span: Span },
    Literal { value: Option<Seq<char>>, span: Span },
}

impl Shape {
    /// The span of the tree; for a group, that of its delimiters.
    pub open spec fn span(self) -> Span {
        match self {
            Shape::Group { span, .. } => span,
            Shape::Ident { span, .. } => span,
            Shape::Punct { span, .. } => span,
            Shape::Literal { span, .. } => span,
        }
    }
}

/// The token trees that iterating over `stream` yields, in order.
pub uninterp spec fn stream_shape(stream: TokenStream) -> Seq<Shape>;

/// What the token tree `tree` is.
pub uninterp spec fn tree_shape(tree: TokenTree) -> Shape;

/// The text that a string literal stands for, given the literal as it is
/// printed: what `syn` reads from it, with the escapes resolved. There is
/// none where the printed text is no single string literal.
pub uninterp spec fn literal_value(printed: Seq<char>) -> Option<Seq<char>>;

/// Whether the printed text of a literal begins with a double quote, as that
/// of a string literal does.
pub open spec fn is_quoted(printed: Seq<char>) -> bool {
    printed.len() > 0 && printed[0] == '"'
}

/// What a literal with this printed text holds: the value of the string
/// literal where it begins with a double quote, nothing otherwise.
pub open spec fn string_value(printed: Seq<char>) -> Option<Seq<char>> {
    if is_quoted(printed) {
        literal_value(printed)
    } else {
        None
    }
}

/// An identifier that every version of the language accepts: an ASCII letter
/// followed by ASCII letters, digits and underscores.
pub open spec fn is_ascii_ident(name: Seq<char>) -> bool {
    &&& name.len() > 0
    &&& ('a' <= name[0] <= 'z' || 'A' <= name[0] <= 'Z')
    &&& forall|i: int|
        0 <= i < name.len() ==> {
            let c = #[trigger] name[i];
            'a' <= c <= 'z' || 'A' <= c <= 'Z' || '0' <= c <= '9' || c == '_'
        }
}

/// The characters that can make a punctuation token.
pub open spec fn is_punct_char(ch: char) -> bool {
    ch == '!' || ch == '#' || ch == '$' || ch == '%' || ch == '&' || ch == '\'' || ch == '*'
        || ch == '+' || ch == ',' || ch == '-' || ch == '.' || ch == '/' || ch == ':' || ch == ';'
        || ch == '<' || ch == '=' || ch == '>' || ch == '?' || ch == '@' || ch == '^' || ch == '|'
        || ch == '~'
}

/// `TokenStream::new`: a stream without tokens.
#[verifier::external_body]
pub(crate) fn empty_stream() -> (stream: TokenStream)
    ensures
        stream_shape(stream) == Seq::<Shape>::empty(),
{
    TokenStream::new()
}

/// `TokenStream::extend` with one other stream: the tokens of `more` are
/// appended to those of `stream`, in order.
#[verifier::external_body]
pub(crate) fn stream_extend(stream: &mut TokenStream, more: TokenStream)
    ensures
        stream_shape(*final(stream)) == stream_shape(*old(stream)) + stream_shape(more),
{
    stream.extend(Some(more));
}

/// `Ident::new`, as a stream of that one token. The call panics on text that
/// is no identifier, which the precondition keeps out.
#[verifier::external_body]
pub(crate) fn ident_token(name: &str, span: Span) -> (stream: TokenStream)
    requires
        is_ascii_ident(name@),
    ensures
        stream_shape(stream) == seq![Shape::Ident { name: name@, span }],
{
    TokenStream::from(TokenTree::Ident(Ident::new(name, span)))
}

/// `Punct::new` followed by `Punct::set_span`, as a stream of that one
/// token; `joint` says that the next punctuation follows immediately. The
/// call panics on other characters than those of `is_punct_char`.
#[verifier::external_body]
pub(crate) fn punct_token(ch: char, joint: bool, span: Span) -> (stream: TokenStream)
    requires
        is_punct_char(ch),
    ensures
        stream_shape(stream) == seq![Shape::Punct { ch, joint, span }],
{
    let mut punct = Punct::new(ch, if joint { Spacing::Joint } else { Spacing::Alone });
    punct.set_span(span);
    TokenStream::from(TokenTree::Punct(punct))
}

/// `syn::LitStr::new` and `LitStr::token`, as a stream of that one token:
/// the string literal that stands for `value`, with `span`. The literal is
/// printed in double quotes, with escapes that `syn` resolves to `value`
/// again.
#[verifier::external_body]
pub(crate) fn string_token(value: &str, span: Span) -> (stream: TokenStream)
    ensures
        stream_shape(stream) == seq![(Shape::Literal { value: Some(value@), span })],
{
    TokenStream::from(TokenTree::Literal(syn::LitStr::new(value, span).token()))
}

/// `Group::new` followed by `Group::set_span`, as a stream of that one
/// token: `inner` between the delimiters, the delimiters with `span`.
#[verifier::external_body]
pub(crate) fn group_token(delimiter: Delim, inner: TokenStream, span: Span) -> (stream:
    TokenStream)
    ensures
        stream_shape(stream) == seq![
            Shape::Group { delimiter, span, stream: stream_shape(inner) },
        ],
{
    let outside = match delimiter {
        Delim::Parenthesis => Delimiter::Parenthesis,
        Delim::Brace => Delimiter::Brace,
        Delim::Bracket => Delimiter::Bracket,
        Delim::Invisible => Delimiter::None,
    };
    let mut group = Group::new(outside, inner);
    group.set_span(span);
    TokenStream::from(TokenTree::Group(group))
}

/// `TokenStream::into_iter`, collected: the token trees of `stream`.
#[verifier::external_body]
pub(crate) fn stream_trees(stream: &TokenStream) -> (trees: Vec<TokenTree>)
    ensures
        trees@.map_values(|tree: TokenTree| tree_shape(tree)) == stream_shape(*stream),
{
    stream.clone().into_iter().collect()
}

/// `TokenTree::span`.
#[verifier::external_body]
pub(crate) fn tree_span(tree: &TokenTree) -> (span: Span)
    ensures
        span == tree_shape(*tree).span(),
{
    tree.span()
}

/// `Group::delimiter` and `Group::stream` where `tree` is a group, nothing
/// for another kind of tree.
#[verifier::external_body]
pub(crate) fn tree_group(tree: &TokenTree) -> (group: Option<(Delim, TokenStream)>)
    ensures
        match group {
            Some((delimiter, inner)) => tree_shape(*tree) matches Shape::Group {
                delimiter: d,
                stream,
                ..
            } && d == delimiter && stream == stream_shape(inner),
            None => !(tree_shape(*tree) is Group),
        },
{
    match tree {
        TokenTree::Group(group) => Some((
            match group.delimiter() {
                Delimiter::Parenthesis => Delim::Parenthesis,
                Delimiter::Brace => Delim::Brace,
                Delimiter::Bracket => Delim::Bracket,
                Delimiter::None => Delim::Invisible,
            },
            group.stream(),
        )),
        _ => None,
    }
}

/// The printed text of `tree` where it is a literal (`Literal::to_string`),
/// nothing for another kind of tree. What the literal holds goes by that
/// text.
#[verifier::external_body]
pub(crate) fn tree_literal(tree: &TokenTree) -> (text: Option<String>)
    ensures
        match text {
            Some(printed) => tree_shape(*tree) matches Shape::Literal { value, .. } && value
                == string_value(printed@),
            None => !(tree_shape(*tree) is Literal),
        },
{
    match tree {
        TokenTree::Literal(literal) => Some(literal.to_string()),
        _ => None,
    }
}

/// `syn::parse_str` for a `LitStr`, and `LitStr::value` of what it gives:
/// the text that the string literal `printed` stands for, or nothing where
/// `printed` is no single string literal. The text must begin with a double
/// quote: `syn` panics on kinds of literal that it does not know, none of
/// which begins so.
#[verifier::external_body]
pub(crate) fn parse_string_literal(printed: &str) -> (value: Option<String>)
    requires
        is_quoted(printed@),
    ensures
        match value {
            Some(text) => literal_value(printed@) == Some(text@),
            None => literal_value(printed@) is None,
        },
{
    match syn::parse_str::<syn::LitStr>(printed) {
        Ok(literal) => Some(literal.value()),
        Err(_) => None,
    }
}

/// `Span::call_site`: the span of the current macro invocation. Which span
/// that is depends on where the library runs.
#[verifier::external_body]
pub(crate) fn call_site() -> Span {
    Span::call_site()
}

} // verus!
