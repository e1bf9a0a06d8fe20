//! The stand-in fragment: output that takes the place of what a pass would
//! have generated, so that a failed pass does not leave the rest of the
//! program without the items it refers to.

use vstd::prelude::*;
use proc_macro2::TokenStream;
use crate::context::{check_correctness, Context, ContextView, Signal};
use crate::tokens::{stream_extend, stream_shape, Shape};

verus! {

impl ContextView {
    /// The state after `fragment` has been set as the stand-in.
    pub open spec fn with_dummy(self, fragment: Seq<Shape>) -> Self {
        ContextView { dummy: Some(fragment), ..self }
    }

    /// The state after the stand-in has been taken out.
    pub open spec fn without_dummy(self) -> Self {
        ContextView { dummy: None, ..self }
    }

    /// The tokens the stand-in contributes to the output of a failed pass.
    pub open spec fn dummy_shape(self) -> Seq<Shape> {
        match self.dummy {
            Some(fragment) => fragment,
            None => Seq::empty(),
        }
    }
}

/// Whether `previous` is the fragment that `slot` holds.
pub open spec fn is_fragment(previous: Option<TokenStream>, slot: Option<Seq<Shape>>) -> bool {
    match previous {
        Some(stream) => slot == Some(stream_shape(stream)),
        None => slot is None,
    }
}

/// Sets the stand-in fragment of the running pass, in place of any that was
/// set before, and returns the one that was set before. Outside a pass this
/// is misuse, and the context stays as it is.
pub fn set_dummy(ctx: &mut Context, dummy: TokenStream) -> (previous: Result<
    Option<TokenStream>,
    Signal,
>)
    requires
        old(ctx)@.wf(),
    ensures
        final(ctx)@.wf(),
        old(ctx)@.active ==> final(ctx)@ == old(ctx)@.with_dummy(stream_shape(dummy)) && (
        previous matches Ok(before) && is_fragment(before, old(ctx)@.dummy)),
        !old(ctx)@.active ==> final(ctx)@ == old(ctx)@ && previous matches Err(Signal::Misuse),
{
    match check_correctness(ctx) {
        Ok(()) => {},
        Err(signal) => {
            return Err(signal);
        },
    }
    Ok(ctx.replace_dummy(Some(dummy)))
}

/// Appends `dummy` to the stand-in fragment of the running pass, which must
/// have been set. Outside a pass this is misuse, and the context stays as it
/// is.
pub fn append_dummy(ctx: &mut Context, dummy: TokenStream) -> (done: Result<(), Signal>)
    requires
        old(ctx)@.wf(),
        old(ctx)@.active ==> old(ctx)@.dummy is Some,
    ensures
        final(ctx)@.wf(),
        old(ctx)@.active ==> done == Ok::<(), Signal>(()) && final(ctx)@ == old(ctx)@.with_dummy(
            old(ctx)@.dummy->0 + stream_shape(dummy),
        ),
        !old(ctx)@.active ==> done == Err::<(), Signal>(Signal::Misuse) && final(ctx)@ == old(
            ctx,
        )@,
{
    match check_correctness(ctx) {
        Ok(()) => {},
        Err(signal) => {
            return Err(signal);
        },
    }
    match ctx.replace_dummy(None) {
        Some(fragment) => {
            let mut fragment = fragment;
            stream_extend(&mut fragment, dummy);
            let _ = ctx.replace_dummy(Some(fragment));
        },
        None => {},
    }
    Ok(())
}

/// Takes the stand-in fragment out, if one is set, and leaves none.
pub fn cleanup(ctx: &mut Context) -> (dummy: Option<TokenStream>)
    requires
        old(ctx)@.wf(),
    ensures
        final(ctx)@.wf(),
        final(ctx)@ == old(ctx)@.without_dummy(),
        is_fragment(dummy, old(ctx)@.dummy),
{
    ctx.replace_dummy(None)
}

} // verus!
