//! The range of source code that a run of tokens covers.

use vstd::prelude::*;
use proc_macro2::{Span, TokenStream, TokenTree};
use crate::tokens::{call_site, stream_shape, stream_trees, tree_shape, tree_span};

verus! {

/// The spans of the first and of the last token tree of `stream`. A stream
/// without tokens has the call site for both.
pub fn double_span(stream: &TokenStream) -> (range: (Span, Span))
    ensures
        stream_shape(*stream).len() > 0 ==> range == (
            stream_shape(*stream).first().span(),
            stream_shape(*stream).last().span(),
        ),
        stream_shape(*stream).len() == 0 ==> range.0 == range.1,
{
    let trees = stream_trees(stream);
    let ghost shapes = trees@.map_values(|t: TokenTree| tree_shape(t));
    let n: usize = trees.len();
    if n == 0 {
        let start = call_site();
        return (start, start);
    }
    assert(shapes[0] == tree_shape(trees[0]));
    assert(shapes[n - 1] == tree_shape(trees[n - 1]));
    let start = tree_span(&trees[0]);
    let end = tree_span(&trees[n - 1]);
    (start, end)
}

} // verus!
