//! Reading rendered errors back: from a stream of `compile_error!`
//! invocations to the sites they were rendered from, and from an error of
//! `syn`, whose only portable form is such a stream, to a diagnostic.

use vstd::prelude::*;
use vstd::string::*;
use proc_macro2::{Span, TokenStream, TokenTree};
use crate::diagnostic::{Diagnostic, DiagnosticView, Level, Site};
use crate::render::{error_shape, lemma_rendered_len, rendered};
use crate::tokens::{
    parse_string_literal, stream_shape, stream_trees, tree_group, tree_literal, tree_shape,
    tree_span, Delim, Shape,
};

verus! {

/// `syn::Error`: one or more messages, each with the span it points to.
#[verifier::external_type_specification]
#[verifier::external_body]
pub struct ExSynError(syn::Error);

/// How many token trees an invocation takes whose group has this delimiter:
/// the macro's name, the `!` and the group, and a `;` after parentheses or
/// brackets.
pub open spec fn invocation_len(delimiter: Delim) -> int {
    match delimiter {
        Delim::Parenthesis | Delim::Bracket => 4,
        Delim::Brace | Delim::Invisible => 3,
    }
}

/// Reads one invocation that starts at index `at` of `shapes`: the site it
/// shows, and the index behind it. The first span is that of the first tree;
/// the third tree must be a group that begins with a string literal, whose
/// span is the last span and whose value is the message. There is nothing to
/// read where a tree is missing or of another kind.
pub open spec fn read_error(shapes: Seq<Shape>, at: int) -> Option<(Site, int)> {
    if at < 0 || at + 3 > shapes.len() {
        None
    } else {
        match shapes[at + 2] {
            Shape::Group { delimiter, stream, .. } => {
                if at + invocation_len(delimiter) > shapes.len() || stream.len() == 0 {
                    None
                } else {
                    match stream[0] {
                        Shape::Literal { value: Some(message), span } => Some(
                            (
                                Site { start: shapes[at].span(), end: span, message },
                                at + invocation_len(delimiter),
                            ),
                        ),
                        _ => None,
                    }
                }
            },
            _ => None,
        }
    }
}

/// Reads invocations from index `at` to the end of `shapes`: their sites in
/// order, or nothing if what is there is not a run of invocations.
pub open spec fn recover_from(shapes: Seq<Shape>, at: int) -> Option<Seq<Site>>
    decreases shapes.len() - at,
{
    if at >= shapes.len() {
        Some(Seq::<Site>::empty())
    } else {
        match read_error(shapes, at) {
            None => None,
            Some((site, next)) => match recover_from(shapes, next) {
                None => None,
                Some(rest) => Some(seq![site] + rest),
            },
        }
    }
}

/// The sites that a whole stream of invocations shows.
pub open spec fn recovered(shapes: Seq<Shape>) -> Option<Seq<Site>> {
    recover_from(shapes, 0)
}

/// The diagnostic for a run of sites: an error at the first site, with the
/// other sites as its children.
pub open spec fn diagnostic_of(sites: Seq<Site>) -> DiagnosticView
    recommends
        sites.len() > 0,
{
    DiagnosticView {
        level: Level::Error,
        start: sites[0].start,
        end: sites[0].end,
        message: sites[0].message,
        attachments: Seq::empty(),
        children: sites.drop_first(),
    }
}

/// The messages of the sites, in the order of the sites.
pub open spec fn messages_of(sites: Seq<Site>) -> Seq<Seq<char>> {
    sites.map_values(|s: Site| s.message)
}

/// The messages that an error of `syn` holds, the first of them first.
pub uninterp spec fn error_messages(err: syn::Error) -> Seq<Seq<char>>;

/// Whether `shapes` is the rendering of one site for each of `messages`, in
/// their order, of which there is one at least.
pub open spec fn renders_messages(shapes: Seq<Shape>, messages: Seq<Seq<char>>) -> bool {
    exists|sites: Seq<Site>|
        sites.len() >= 1 && messages_of(sites) == messages && shapes == #[trigger] rendered(
            sites,
        )
}

/// `syn::Error::to_compile_error`: for each message of the error, in order,
/// one `compile_error!{ "message" }` whose name and `!` carry the message's
/// first span, whose braces and literal its last. An error holds one message
/// at least. Which spans these are depends on the thread that asks.
#[verifier::external_body]
pub(crate) fn error_tokens(err: &syn::Error) -> (stream: TokenStream)
    ensures
        renders_messages(stream_shape(stream), error_messages(*err)),
{
    err.to_compile_error()
}

/// The tokens of the `k`-th site stand at index `3 * k` of the rendering.
proof fn lemma_rendered_at(sites: Seq<Site>, k: int)
    requires
        0 <= k < sites.len(),
    ensures
        rendered(sites).len() == 3 * sites.len(),
        rendered(sites)[3 * k] == error_shape(sites[k])[0],
        rendered(sites)[3 * k + 1] == error_shape(sites[k])[1],
        rendered(sites)[3 * k + 2] == error_shape(sites[k])[2],
    decreases sites.len(),
{
    lemma_rendered_len(sites);
    lemma_rendered_len(sites.drop_last());
    if k < sites.len() - 1 {
        lemma_rendered_at(sites.drop_last(), k);
    }
}

/// Reading a rendering back from its `k`-th invocation on gives the sites
/// from the `k`-th on.
proof fn lemma_recover_rendered_from(sites: Seq<Site>, k: int)
    requires
        0 <= k <= sites.len(),
    ensures
        recover_from(rendered(sites), 3 * k) == Some(sites.skip(k)),
    decreases sites.len() - k,
{
    let shapes = rendered(sites);
    lemma_rendered_len(sites);
    if k == sites.len() {
        assert(sites.skip(k) =~= Seq::<Site>::empty());
    } else {
        lemma_rendered_at(sites, k);
        lemma_recover_rendered_from(sites, k + 1);
        assert(read_error(shapes, 3 * k) == Some((sites[k], 3 * k + 3)));
        assert(sites.skip(k) =~= seq![sites[k]] + sites.skip(k + 1));
    }
}

/// Reading a rendering back gives the sites it was rendered from: the same
/// locations and the same messages, in the same order.
pub proof fn lemma_recover_rendered(sites: Seq<Site>)
    ensures
        recovered(rendered(sites)) == Some(sites),
{
    lemma_recover_rendered_from(sites, 0);
    assert(sites.skip(0) =~= sites);
}

/// Reads one invocation that starts at index `at` of `trees`.
fn gut_error(trees: &Vec<TokenTree>, at: usize) -> (read: Option<(Span, Span, String, usize)>)
    requires
        at < trees.len(),
    ensures
        match read_error(trees@.map_values(|t: TokenTree| tree_shape(t)), at as int) {
            Some((site, next)) => read matches Some((start, end, message, after)) && start
                == site.start && end == site.end && message@ == site.message && after == next,
            None => read is None,
        },
{
    let ghost shapes = trees@.map_values(|t: TokenTree| tree_shape(t));
    let n: usize = trees.len();
    if n - at < 3 {
        return None;
    }
    assert(shapes[at as int] == tree_shape(trees[at as int]));
    assert(shapes[at + 2] == tree_shape(trees[at + 2]));
    let start = tree_span(&trees[at]);
    let (delimiter, inner) = match tree_group(&trees[at + 2]) {
        Some(group) => group,
        None => {
            return None;
        },
    };
    let used: usize = match delimiter {
        Delim::Parenthesis | Delim::Bracket => 4,
        Delim::Brace | Delim::Invisible => 3,
    };
    if n - at < used {
        return None;
    }
    let inside = stream_trees(&inner);
    let ghost inner_shapes = inside@.map_values(|t: TokenTree| tree_shape(t));
    if inside.len() == 0 {
        return None;
    }
    assert(inner_shapes[0] == tree_shape(inside[0]));
    let text = match tree_literal(&inside[0]) {
        Some(text) => text,
        None => {
            return None;
        },
    };
    let end = tree_span(&inside[0]);
    if text.as_str().unicode_len() == 0 || text.as_str().get_char(0) != '"' {
        return None;
    }
    let message = match parse_string_literal(text.as_str()) {
        Some(message) => message,
        None => {
            return None;
        },
    };
    Some((start, end, message, at + used))
}

impl Diagnostic {
    /// The diagnostic that a stream of `compile_error!` invocations was
    /// rendered from: an error at the site of the first invocation, with one
    /// child for each further invocation. There is none where the stream is
    /// empty or is not a run of such invocations.
    pub fn from_rendered(stream: &TokenStream) -> (diag: Option<Diagnostic>)
        ensures
            match recovered(stream_shape(*stream)) {
                Some(sites) => if sites.len() > 0 {
                    diag matches Some(d) && d@ == diagnostic_of(sites)
                } else {
                    diag is None
                },
                None => diag is None,
            },
    {
        let trees = stream_trees(stream);
        let ghost shapes = stream_shape(*stream);
        assert(shapes == trees@.map_values(|t: TokenTree| tree_shape(t)));
        if trees.len() == 0 {
            return None;
        }
        let (start, end, message, first_end) = match gut_error(&trees, 0) {
            Some(read) => read,
            None => {
                return None;
            },
        };
        let ghost first = Site { start, end, message: message@ };
        let mut res = Diagnostic::double_spanned(start, end, Level::Error, message);
        let mut at: usize = first_end;
        let ghost mut sites: Seq<Site> = seq![first];
        proof {
            assert(sites.drop_first() =~= Seq::<Site>::empty());
            assert(res@ == diagnostic_of(sites));
            assert(match recover_from(shapes, at as int) {
                Some(rest) => recovered(shapes) == Some(sites + rest),
                None => recovered(shapes) is None,
            });
        }
        while at < trees.len()
            invariant
                shapes == stream_shape(*stream),
                shapes == trees@.map_values(|t: TokenTree| tree_shape(t)),
                sites.len() > 0,
                res@ == diagnostic_of(sites),
                match recover_from(shapes, at as int) {
                    Some(rest) => recovered(shapes) == Some(sites + rest),
                    None => recovered(shapes) is None,
                },
            decreases trees.len() - at,
        {
            match gut_error(&trees, at) {
                None => {
                    assert(recover_from(shapes, at as int) is None);
                    return None;
                },
                Some((start, end, message, next)) => {
                    let ghost site = Site { start, end, message: message@ };
                    proof {
                        assert((sites.push(site)).drop_first() =~= sites.drop_first().push(site));
                        match recover_from(shapes, next as int) {
                            Some(rest) => {
                                assert(sites + (seq![site] + rest) =~= sites.push(site) + rest);
                            },
                            None => {},
                        }
                        sites = sites.push(site);
                    }
                    res = res.double_span_error(start, end, message);
                    at = next;
                },
            }
        }
        proof {
            assert(recover_from(shapes, at as int) == Some(Seq::<Site>::empty()));
            assert(sites + Seq::<Site>::empty() =~= sites);
        }
        Some(res)
    }

    /// The diagnostic for an error of `syn`: what `from_rendered` reads from
    /// the error's own rendering. It is an error without notes; the first
    /// message of `err` is its main message, every further message that of a
    /// child, in their order.
    pub fn from_error(err: &syn::Error) -> (diag: Diagnostic)
        ensures
            converts(error_messages(*err), diag@),
            error_messages(*err).len() >= 1,
            diag@.level == Level::Error,
            diag@.attachments.len() == 0,
            diag@.message == error_messages(*err)[0],
            messages_of(diag@.children) == error_messages(*err).drop_first(),
    {
        let stream = error_tokens(err);
        proof {
            let messages = error_messages(*err);
            let sites = choose|sites: Seq<Site>|
                sites.len() >= 1 && messages_of(sites) == messages && stream_shape(stream)
                    == #[trigger] rendered(sites);
            lemma_recover_rendered(sites);
            assert(sites[0].message == messages_of(sites)[0]);
            assert(messages_of(sites.drop_first()) =~= messages.drop_first());
        }
        match Diagnostic::from_rendered(&stream) {
            Some(diag) => diag,
            None => unreached(),
        }
    }
}

impl From<syn::Error> for Diagnostic {
    /// The same as `Diagnostic::from_error`.
    fn from(err: syn::Error) -> (diag: Diagnostic)
        ensures
            converts(error_messages(err), diag@),
            error_messages(err).len() >= 1,
            diag@.level == Level::Error,
            diag@.attachments.len() == 0,
            diag@.message == error_messages(err)[0],
            messages_of(diag@.children) == error_messages(err).drop_first(),
    {
        Diagnostic::from_error(&err)
    }
}

impl vstd::std_specs::convert::FromSpecImpl<syn::Error> for Diagnostic {
    /// The spans of the result depend on the thread that converts, so the
    /// result is no function of the error: `from` states what holds of it.
    open spec fn obeys_from_spec() -> bool {
        false
    }

    open spec fn from_spec(v: syn::Error) -> Diagnostic {
        arbitrary()
    }
}

/// Whether `diag` is the diagnostic for sites that show `messages`, one
/// each and in their order: the spans are those of the sites, whichever they
/// are.
pub open spec fn converts(messages: Seq<Seq<char>>, diag: DiagnosticView) -> bool {
    exists|sites: Seq<Site>|
        sites.len() >= 1 && messages_of(sites) == messages && diag == #[trigger] diagnostic_of(
            sites,
        )
}

} // verus!
