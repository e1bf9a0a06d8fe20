//! The fallback rendering: every error site becomes one `compile_error!`
//! invocation that carries the site's spans.

use vstd::prelude::*;
use proc_macro2::{Span, TokenStream};
use crate::diagnostic::{Child, Diagnostic, DiagnosticView, Level, Site};
use crate::tokens::{
    empty_stream, group_token, ident_token, punct_token, stream_extend, stream_shape,
    string_token, Delim, Shape,
};

verus! {

/// The name of the macro that raises an error at compile time.
pub open spec fn compile_error_name() -> Seq<char> {
    seq!['c', 'o', 'm', 'p', 'i', 'l', 'e', '_', 'e', 'r', 'r', 'o', 'r']
}

/// The tokens of `compile_error!{ "message" }` for one site: the macro's name
/// and the `!` carry the site's first span, the braces and the literal its
/// last; the literal stands for the site's message.
pub open spec fn error_shape(site: Site) -> Seq<Shape> {
    seq![
        Shape::Ident { name: compile_error_name(), span: site.start },
        Shape::Punct { ch: '!', joint: false, span: site.start },
        Shape::Group {
            delimiter: Delim::Brace,
            span: site.end,
            stream: seq![Shape::Literal { value: Some(site.message), span: site.end }],
        },
    ]
}

/// The tokens of the sites, one invocation after the other.
pub open spec fn rendered(sites: Seq<Site>) -> Seq<Shape>
    decreases sites.len(),
{
    if sites.len() == 0 {
        Seq::<Shape>::empty()
    } else {
        rendered(sites.drop_last()) + error_shape(sites.last())
    }
}

/// The sites of all diagnostics, in the order of the diagnostics.
pub open spec fn all_sites(diags: Seq<DiagnosticView>) -> Seq<Site>
    decreases diags.len(),
{
    if diags.len() == 0 {
        Seq::<Site>::empty()
    } else {
        all_sites(diags.drop_last()) + diags.last().sites()
    }
}

/// The views of a sequence of diagnostics.
pub open spec fn views(diags: Seq<Diagnostic>) -> Seq<DiagnosticView> {
    diags.map_values(|d: Diagnostic| d@)
}

/// Rendering is done site by site: the tokens of two runs of sites are the
/// tokens of the first run followed by those of the second.
pub proof fn lemma_rendered_concat(first: Seq<Site>, second: Seq<Site>)
    ensures
        rendered(first + second) == rendered(first) + rendered(second),
    decreases second.len(),
{
    if second.len() == 0 {
        assert(first + second =~= first);
        assert(rendered(first) + rendered(second) =~= rendered(first));
    } else {
        let all = first + second;
        assert(all.drop_last() =~= first + second.drop_last());
        assert(all.last() == second.last());
        lemma_rendered_concat(first, second.drop_last());
        assert(rendered(all) =~= rendered(first) + rendered(second));
    }
}

/// Each site is rendered as three token trees.
pub proof fn lemma_rendered_len(sites: Seq<Site>)
    ensures
        rendered(sites).len() == 3 * sites.len(),
    decreases sites.len(),
{
    if sites.len() > 0 {
        lemma_rendered_len(sites.drop_last());
    }
}

/// The tokens of one `compile_error!` invocation that shows `message` at the
/// range from `start` to `end`.
pub fn site_tokens(start: Span, end: Span, message: &str) -> (stream: TokenStream)
    ensures
        stream_shape(stream) == error_shape(Site { start, end, message: message@ }),
{
    proof {
        reveal_strlit("compile_error");
    }
    assert("compile_error"@ =~= compile_error_name());
    let mut stream = ident_token("compile_error", start);
    stream_extend(&mut stream, punct_token('!', false, start));
    let literal = string_token(message, end);
    stream_extend(&mut stream, group_token(Delim::Brace, literal, end));
    assert(stream_shape(stream) =~= error_shape(Site { start, end, message: message@ }));
    stream
}

impl Diagnostic {
    /// Appends the rendering of this diagnostic to `ts`: one invocation for
    /// the main message with its notes, unless this is a warning, and one for
    /// each child.
    pub fn to_tokens(&self, ts: &mut TokenStream)
        ensures
            stream_shape(*final(ts)) == stream_shape(*old(ts)) + rendered(self@.sites()),
    {
        let ghost before = stream_shape(*ts);
        let ghost main = if self@.level == Level::Warning {
            Seq::<Site>::empty()
        } else {
            seq![Site { start: self@.start, end: self@.end, message: self@.composed() }]
        };
        match self.level() {
            Level::Warning => {},
            Level::Error => {
                let (start, end) = self.span_range();
                let message = self.composed_message();
                stream_extend(ts, site_tokens(start, end, message.as_str()));
                assert(main.drop_last() =~= Seq::<Site>::empty());
                assert(rendered(main.drop_last()) =~= Seq::<Shape>::empty());
                assert(rendered(main) =~= error_shape(main.last()));
            },
        }
        assert(stream_shape(*ts) =~= before + rendered(main));
        let children = self.children();
        let ghost sites = children@.map_values(|c: Child| c@);
        assert(sites.take(0) =~= Seq::<Site>::empty());
        let mut i: usize = 0;
        while i < children.len()
            invariant
                0 <= i <= children.len(),
                sites == children@.map_values(|c: Child| c@),
                stream_shape(*ts) == before + rendered(main + sites.take(i as int)),
            decreases children.len() - i,
        {
            let child = &children[i];
            stream_extend(ts, site_tokens(child.start, child.end, child.message.as_str()));
            proof {
                let upto = main + sites.take(i as int + 1);
                assert(upto.drop_last() =~= main + sites.take(i as int));
                assert(upto.last() == child@);
                assert(stream_shape(*ts) =~= before + rendered(upto));
            }
            i += 1;
        }
        assert(sites.take(i as int) =~= sites);
        assert(main + sites =~= self@.sites());
    }
}

/// Appends the rendering of every diagnostic of `diags` to `ts`, in order.
pub fn render_all(diags: &Vec<Diagnostic>, ts: &mut TokenStream)
    ensures
        stream_shape(*final(ts)) == stream_shape(*old(ts)) + rendered(all_sites(views(diags@))),
{
    let ghost before = stream_shape(*ts);
    let ghost all = views(diags@);
    assert(all.take(0) =~= Seq::<DiagnosticView>::empty());
    assert(stream_shape(*ts) =~= before + rendered(all_sites(all.take(0))));
    let mut i: usize = 0;
    while i < diags.len()
        invariant
            0 <= i <= diags.len(),
            all == views(diags@),
            stream_shape(*ts) == before + rendered(all_sites(all.take(i as int))),
        decreases diags.len() - i,
    {
        diags[i].to_tokens(ts);
        proof {
            let upto = all.take(i as int + 1);
            assert(upto.drop_last() =~= all.take(i as int));
            assert(upto.last() == diags[i as int]@);
            lemma_rendered_concat(all_sites(all.take(i as int)), diags[i as int]@.sites());
            assert(stream_shape(*ts) =~= before + rendered(all_sites(upto)));
        }
        i += 1;
    }
    assert(all.take(i as int) =~= all);
}

} // verus!
