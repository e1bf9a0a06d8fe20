//! The entry point of a pass: it marks the pass as running, lets the
//! generation function work, and then decides what the pass hands back.

use vstd::prelude::*;
use proc_macro2::{Span, TokenStream};
use crate::context::{Backend, Context, ContextView, Signal};
use crate::render::{all_sites, render_all, rendered};
use crate::tokens::{
    call_site, empty_stream, group_token, ident_token, punct_token, stream_extend, stream_shape,
    Delim, Shape,
};

verus! {

/// How a generation function came to its end.
pub enum Outcome<T, F> {
    /// It returned what it had generated.
    Returned(T),
    /// It stopped on the abort signal of this library.
    Aborted,
    /// It stopped on a fault of another origin, which is carried along.
    Faulted(F),
}

impl<T> Outcome<T, Signal> {
    /// The outcome of a generation function that hands the signals of this
    /// library up as errors: the abort signal ends the pass in the ordinary
    /// way, misuse is a fault.
    pub fn from_result(result: Result<T, Signal>) -> (outcome: Self)
        ensures
            outcome == match result {
                Ok(value) => Outcome::<T, Signal>::Returned(value),
                Err(Signal::Abort) => Outcome::<T, Signal>::Aborted,
                Err(Signal::Misuse) => Outcome::<T, Signal>::Faulted(Signal::Misuse),
            },
    {
        match result {
            Ok(value) => Outcome::Returned(value),
            Err(Signal::Abort) => Outcome::Aborted,
            Err(Signal::Misuse) => Outcome::Faulted(Signal::Misuse),
        }
    }
}

/// The tokens of
/// `#[allow(unused)] macro_rules! proc_macro_call { () => ( unimplemented!() ) }`,
/// every one of them with `span`.
pub open spec fn hack_appendix(span: Span) -> Seq<Shape> {
    seq![
        Shape::Punct { ch: '#', joint: false, span },
        Shape::Group {
            delimiter: Delim::Bracket,
            span,
            stream: seq![
                Shape::Ident { name: "allow"@, span },
                Shape::Group {
                    delimiter: Delim::Parenthesis,
                    span,
                    stream: seq![Shape::Ident { name: "unused"@, span }],
                },
            ],
        },
        Shape::Ident { name: "macro_rules"@, span },
        Shape::Punct { ch: '!', joint: false, span },
        Shape::Ident { name: "proc_macro_call"@, span },
        Shape::Group {
            delimiter: Delim::Brace,
            span,
            stream: seq![
                Shape::Group { delimiter: Delim::Parenthesis, span, stream: Seq::empty() },
                Shape::Punct { ch: '=', joint: true, span },
                Shape::Punct { ch: '>', joint: false, span },
                Shape::Group {
                    delimiter: Delim::Parenthesis,
                    span,
                    stream: seq![
                        Shape::Ident { name: "unimplemented"@, span },
                        Shape::Punct { ch: '!', joint: false, span },
                        Shape::Group { delimiter: Delim::Parenthesis, span, stream: Seq::empty() },
                    ],
                },
            ],
        },
    ]
}

/// What a failed pass hands back: the rendering of every stored diagnostic,
/// in the order of emission, then the stand-in fragment, then, for a macro
/// that goes through `proc_macro_hack`, the appendix that such a macro needs.
pub open spec fn failure_output(state: ContextView, proc_macro_hack: bool, span: Span) -> Seq<
    Shape,
> {
    rendered(all_sites(state.storage)) + state.dummy_shape() + if proc_macro_hack {
        hack_appendix(span)
    } else {
        Seq::<Shape>::empty()
    }
}

/// Whether `out` is what a pass hands back that ends in `state` with
/// `outcome`. A fault of another origin is handed on as it is. What the
/// generation function returned is handed on only if nothing was stored;
/// in every other case the pass has failed.
pub open spec fn concludes<E>(
    state: ContextView,
    outcome: Outcome<TokenStream, E>,
    proc_macro_hack: bool,
    out: Result<TokenStream, E>,
) -> bool {
    match outcome {
        Outcome::Faulted(fault) => out == Err::<TokenStream, E>(fault),
        Outcome::Returned(tokens) => if state.storage.len() == 0 {
            out == Ok::<TokenStream, E>(tokens)
        } else {
            is_failure(state, proc_macro_hack, out)
        },
        Outcome::Aborted => is_failure(state, proc_macro_hack, out),
    }
}

/// Whether `out` is the output of a pass that failed in `state`.
pub open spec fn is_failure<E>(
    state: ContextView,
    proc_macro_hack: bool,
    out: Result<TokenStream, E>,
) -> bool {
    out matches Ok(stream) && exists|span: Span|
        stream_shape(stream) == #[trigger] failure_output(state, proc_macro_hack, span)
}

/// The appendix for macros that go through `proc_macro_hack`.
fn hack_tokens(span: Span) -> (stream: TokenStream)
    ensures
        stream_shape(stream) == hack_appendix(span),
{
    proof {
        reveal_strlit("allow");
        reveal_strlit("unused");
        reveal_strlit("macro_rules");
        reveal_strlit("proc_macro_call");
        reveal_strlit("unimplemented");
    }
    let mut allowed = ident_token("allow", span);
    stream_extend(&mut allowed, group_token(Delim::Parenthesis, ident_token("unused", span), span));
    let mut body = ident_token("unimplemented", span);
    stream_extend(&mut body, punct_token('!', false, span));
    stream_extend(&mut body, group_token(Delim::Parenthesis, empty_stream(), span));
    let mut arm = group_token(Delim::Parenthesis, empty_stream(), span);
    stream_extend(&mut arm, punct_token('=', true, span));
    stream_extend(&mut arm, punct_token('>', false, span));
    stream_extend(&mut arm, group_token(Delim::Parenthesis, body, span));
    let mut stream = punct_token('#', false, span);
    stream_extend(&mut stream, group_token(Delim::Bracket, allowed, span));
    stream_extend(&mut stream, ident_token("macro_rules", span));
    stream_extend(&mut stream, punct_token('!', false, span));
    stream_extend(&mut stream, ident_token("proc_macro_call", span));
    stream_extend(&mut stream, group_token(Delim::Brace, arm, span));
    assert(stream_shape(stream) =~= hack_appendix(span)) by {
        let made = stream_shape(stream);
        let wanted = hack_appendix(span);
        assert(made[1] == wanted[1]) by {
            assert(made[1]->Group_stream =~= wanted[1]->Group_stream);
        }
        assert(made[5] == wanted[5]) by {
            let made_arm = made[5]->Group_stream;
            let wanted_arm = wanted[5]->Group_stream;
            assert(made_arm[3]->Group_stream =~= wanted_arm[3]->Group_stream);
            assert(made_arm =~= wanted_arm);
        }
    }
    stream
}

impl Context {
    /// Ends the pass and decides what it hands back. Whatever the outcome,
    /// the stand-in and the stored diagnostics are taken out and the pass is
    /// no longer running.
    pub fn finish<E>(&mut self, outcome: Outcome<TokenStream, E>, proc_macro_hack: bool) -> (out:
        Result<TokenStream, E>)
        ensures
            final(self)@ == old(self)@.left(),
            old(self)@.wf() ==> final(self)@.wf(),
            concludes(old(self)@, outcome, proc_macro_hack, out),
    {
        let dummy = self.replace_dummy(None);
        let err_storage = self.drain();
        self.leave();
        match outcome {
            Outcome::Faulted(fault) => {
                return Err(fault);
            },
            Outcome::Returned(tokens) => {
                if err_storage.len() == 0 {
                    return Ok(tokens);
                }
            },
            Outcome::Aborted => {},
        }
        let mut stream = empty_stream();
        render_all(&err_storage, &mut stream);
        match dummy {
            Some(fragment) => {
                stream_extend(&mut stream, fragment);
            },
            None => {},
        }
        let span = call_site();
        if proc_macro_hack {
            stream_extend(&mut stream, hack_tokens(span));
        }
        assert(stream_shape(stream) =~= failure_output(old(self)@, proc_macro_hack, span));
        Ok(stream)
    }
}

/// The state in which a generation function starts: a pass is running and
/// nothing has been emitted or set.
pub open spec fn started() -> ContextView {
    ContextView::idle(Backend::Fallback).entered()
}

/// Runs one pass with the fallback backend: hands `f` a context in which
/// the pass is running, and then decides what the pass hands back, by
/// `concludes`, from the state `f` left and the outcome it reported.
pub fn entry_point<F, E>(f: F, proc_macro_hack: bool) -> (out: Result<TokenStream, E>) where
    F: FnOnce(&mut Context) -> Outcome<TokenStream, E>,

    requires
        forall|ctx: &mut Context| (*ctx)@ == started() ==> call_requires(f, (ctx,)),
    ensures
        exists|ctx: &mut Context, outcome: Outcome<TokenStream, E>|
            (*ctx)@ == started() && #[trigger] call_ensures(f, (ctx,), outcome) && concludes(
                (*final(ctx))@,
                outcome,
                proc_macro_hack,
                out,
            ),
{
    let mut ctx = Context::new(Backend::Fallback);
    ctx.enter();
    let outcome = f(&mut ctx);
    ctx.finish(outcome, proc_macro_hack)
}

} // verus!
