//! Shortcuts on `Result` and `Option`: take the value out, or report why
//! there is none and stop the pass.

use vstd::prelude::*;
use vstd::std_specs::convert::IntoSpec;
use vstd::string::*;
use crate::context::{Context, ContextView, Signal};
use crate::diagnostic::{Diagnostic, DiagnosticView, Level};

verus! {

/// What reporting `diag` and stopping the pass does to the context: in a
/// running pass the diagnostic is emitted and the signal is the abort
/// signal; outside a pass nothing changes and the signal is misuse.
pub open spec fn aborts_with(
    before: ContextView,
    diag: DiagnosticView,
    after: ContextView,
    signal: Signal,
) -> bool {
    if before.active {
        after == before.emitted(diag) && signal == Signal::Abort
    } else {
        after == before && signal == Signal::Misuse
    }
}

/// The value of an `Ok`; for an `Err`, the diagnostic is reported and the
/// pass stops: in a running pass it is emitted and the signal is the abort
/// signal, outside a pass nothing changes and the signal is misuse.
pub fn unwrap_or_abort<T>(result: Result<T, Diagnostic>, ctx: &mut Context) -> (value: Result<
    T,
    Signal,
>)
    requires
        old(ctx)@.wf(),
    ensures
        final(ctx)@.wf(),
        result matches Ok(res) ==> value == Ok::<T, Signal>(res) && final(ctx)@ == old(ctx)@,
        result matches Err(e) ==> value is Err && aborts_with(
            old(ctx)@,
            e@,
            final(ctx)@,
            value->Err_0,
        ),
        result matches Err(e) ==> old(ctx)@.active ==> final(ctx)@ == old(ctx)@.emitted(e@),
{
    match result {
        Ok(res) => Ok(res),
        Err(e) => Err(e.abort(ctx)),
    }
}

/// The value of an `Ok`; for an `Err`, the diagnostic is reported with `msg`,
/// a colon and a space before its main message, and the pass stops.
pub fn expect_or_abort<T>(result: Result<T, Diagnostic>, ctx: &mut Context, msg: &str) -> (value:
    Result<T, Signal>)
    requires
        old(ctx)@.wf(),
    ensures
        final(ctx)@.wf(),
        result matches Ok(res) ==> value == Ok::<T, Signal>(res) && final(ctx)@ == old(ctx)@,
        result matches Err(e) ==> value is Err && aborts_with(
            old(ctx)@,
            e@.with_message(msg@ + seq![':', ' '] + e@.message),
            final(ctx)@,
            value->Err_0,
        ),
        result matches Err(e) ==> old(ctx)@.active ==> final(ctx)@ == old(ctx)@.emitted(
            e@.with_message(msg@ + seq![':', ' '] + e@.message),
        ),
{
    match result {
        Ok(res) => Ok(res),
        Err(e) => Err(e.prefixed(msg).abort(ctx)),
    }
}

/// Shortcuts on a `Result` whose error can be turned into a diagnostic.
pub trait ResultExt {
    type Ok;

    /// The value of an `Ok`; for an `Err`, the error is reported as a
    /// diagnostic and the pass stops.
    fn unwrap_or_abort(self, ctx: &mut Context) -> (value: Result<Self::Ok, Signal>)
        requires
            old(ctx)@.wf(),
        ensures
            final(ctx)@.wf(),
    ;

    /// The value of an `Ok`; for an `Err`, the error is reported as a
    /// diagnostic whose message is preceded by `msg`, and the pass stops.
    fn expect_or_abort(self, ctx: &mut Context, msg: &str) -> (value: Result<Self::Ok, Signal>)
        requires
            old(ctx)@.wf(),
        ensures
            final(ctx)@.wf(),
    ;
}

/// Shortcuts on an `Option`.
pub trait OptionExt {
    type Some;

    /// The value of a `Some`; for a `None`, an error with the message `msg`
    /// is reported at the call site and the pass stops.
    fn expect_or_abort(self, ctx: &mut Context, msg: &str) -> (value: Result<Self::Some, Signal>)
        requires
            old(ctx)@.wf(),
        ensures
            final(ctx)@.wf(),
    ;
}

impl<T, E: Into<Diagnostic>> ResultExt for Result<T, E> {
    type Ok = T;

    fn unwrap_or_abort(self, ctx: &mut Context) -> (value: Result<T, Signal>)
        ensures
            self matches Ok(res) ==> value == Ok::<T, Signal>(res) && final(ctx)@ == old(ctx)@,
            self matches Err(e) ==> exists|diag: Diagnostic, signal: Signal|
                (E::obeys_into_spec() ==> diag == e.into_spec()) && value == Err::<T, Signal>(
                    signal,
                ) && aborts_with(old(ctx)@, diag@, final(ctx)@, signal),
    {
        match self {
            Ok(res) => self::unwrap_or_abort::<T>(Ok(res), ctx),
            Err(e) => {
                let diag: Diagnostic = e.into();
                let ghost reported = diag;
                let value = self::unwrap_or_abort::<T>(Err(diag), ctx);
                assert(aborts_with(old(ctx)@, reported@, ctx@, value->Err_0));
                value
            },
        }
    }

    fn expect_or_abort(self, ctx: &mut Context, msg: &str) -> (value: Result<T, Signal>)
        ensures
            self matches Ok(res) ==> value == Ok::<T, Signal>(res) && final(ctx)@ == old(ctx)@,
            self matches Err(e) ==> exists|diag: Diagnostic, signal: Signal|
                (E::obeys_into_spec() ==> diag == e.into_spec()) && value == Err::<T, Signal>(
                    signal,
                ) && aborts_with(
                    old(ctx)@,
                    diag@.with_message(msg@ + seq![':', ' '] + diag@.message),
                    final(ctx)@,
                    signal,
                ),
    {
        match self {
            Ok(res) => self::expect_or_abort::<T>(Ok(res), ctx, msg),
            Err(e) => {
                let diag: Diagnostic = e.into();
                let ghost converted = diag;
                let value = self::expect_or_abort::<T>(Err(diag), ctx, msg);
                assert(aborts_with(
                    old(ctx)@,
                    converted@.with_message(msg@ + seq![':', ' '] + converted@.message),
                    ctx@,
                    value->Err_0,
                ));
                value
            },
        }
    }
}

impl<T> OptionExt for Option<T> {
    type Some = T;

    fn expect_or_abort(self, ctx: &mut Context, msg: &str) -> (value: Result<T, Signal>)
        ensures
            self matches Some(res) ==> value == Ok::<T, Signal>(res) && final(ctx)@ == old(ctx)@,
            self is None ==> exists|diag: DiagnosticView, signal: Signal|
                diag == DiagnosticView::plain(diag.start, diag.start, Level::Error, msg@)
                    && value == Err::<T, Signal>(signal) && aborts_with(
                    old(ctx)@,
                    diag,
                    final(ctx)@,
                    signal,
                ),
    {
        match self {
            Some(res) => Ok(res),
            None => {
                let diag = Diagnostic::new(Level::Error, String::from_str(msg));
                let ghost reported = diag@;
                let signal = diag.abort(ctx);
                assert(aborts_with(old(ctx)@, reported, ctx@, signal));
                Err(signal)
            },
        }
    }
}

} // verus!
