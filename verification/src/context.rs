//! The state of one generation pass: whether a pass is running, the
//! diagnostics emitted so far, and the stand-in fragment. Every operation
//! that reports something first checks that a pass is running.

use vstd::prelude::*;
use proc_macro2::TokenStream;
use crate::diagnostic::{Diagnostic, DiagnosticView, Level};
use crate::render::views;
use crate::tokens::{stream_shape, Shape};

verus! {

/// How diagnostics reach the host tool.
#[derive(Debug, PartialEq, Eq, Clone, Copy, Structural)]
pub enum Backend {
    /// Diagnostics are stored, and rendered as `compile_error!` invocations
    /// when the pass ends.
    Fallback,
    /// Diagnostics are handed to the host tool's own diagnostic channel.
    Rich,
}

/// Why an operation did not complete.
#[derive(Debug, PartialEq, Eq, Clone, Copy, Structural)]
pub enum Signal {
    /// The operation was used outside a running pass.
    Misuse,
    /// The pass is to stop now; what was emitted will be rendered.
    Abort,
}

/// The state of a pass as the contracts see it.
pub struct ContextView {
    pub backend: Backend,
    pub active: bool,
    pub storage: Seq<DiagnosticView>,
    pub host: Seq<DiagnosticView>,
    pub host_dirty: bool,
    pub dummy: Option<Seq<Shape>>,
}

impl ContextView {
    /// The state before a first pass.
    pub open spec fn idle(backend: Backend) -> Self {
        ContextView {
            backend,
            active: false,
            storage: Seq::empty(),
            host: Seq::empty(),
            host_dirty: false,
            dummy: None,
        }
    }

    /// Outside a pass nothing is stored and no stand-in is set. The fallback
    /// backend hands nothing to the host, the rich backend stores nothing.
    pub open spec fn wf(self) -> bool {
        &&& !self.active ==> self.storage.len() == 0 && self.dummy is None && !self.host_dirty
        &&& self.backend == Backend::Fallback ==> self.host.len() == 0 && !self.host_dirty
        &&& self.backend == Backend::Rich ==> self.storage.len() == 0
    }

    /// The state after a pass has been entered.
    pub open spec fn entered(self) -> Self {
        ContextView { active: true, ..self }
    }

    /// The state after `diag` has been emitted in a running pass. The
    /// fallback backend stores an error and drops a warning. The rich backend
    /// hands every diagnostic to the host and marks that an error was among
    /// them.
    pub open spec fn emitted(self, diag: DiagnosticView) -> Self {
        match self.backend {
            Backend::Fallback => if diag.level == Level::Error {
                ContextView { storage: self.storage.push(diag), ..self }
            } else {
                self
            },
            Backend::Rich => ContextView {
                host: self.host.push(diag),
                host_dirty: self.host_dirty || diag.level == Level::Error,
                ..self
            },
        }
    }

    /// Whether an error was emitted in this pass. Warnings do not count.
    pub open spec fn dirty(self) -> bool {
        match self.backend {
            Backend::Fallback => self.storage.len() > 0,
            Backend::Rich => self.host_dirty,
        }
    }

    /// The state after the pass has been left: nothing of it remains but
    /// what was handed to the host.
    pub open spec fn left(self) -> Self {
        ContextView {
            active: false,
            storage: Seq::empty(),
            host_dirty: false,
            dummy: None,
            ..self
        }
    }
}

/// The state of one generation pass.
pub struct Context {
    backend: Backend,
    active: bool,
    storage: Vec<Diagnostic>,
    host: Vec<Diagnostic>,
    host_dirty: bool,
    dummy: Option<TokenStream>,
}

impl View for Context {
    type V = ContextView;

    closed spec fn view(&self) -> ContextView {
        ContextView {
            backend: self.backend,
            active: self.active,
            storage: views(self.storage@),
            host: views(self.host@),
            host_dirty: self.host_dirty,
            dummy: match self.dummy {
                Some(stream) => Some(stream_shape(stream)),
                None => None,
            },
        }
    }
}

impl Context {
    /// A context in which no pass is running.
    pub fn new(backend: Backend) -> (ctx: Self)
        ensures
            ctx@ == ContextView::idle(backend),
            ctx@.wf(),
    {
        let ctx = Context {
            backend,
            active: false,
            storage: Vec::new(),
            host: Vec::new(),
            host_dirty: false,
            dummy: None,
        };
        assert(ctx@.storage =~= Seq::empty());
        assert(ctx@.host =~= Seq::empty());
        ctx
    }

    /// Marks the pass as running.
    pub fn enter(&mut self)
        ensures
            final(self)@ == old(self)@.entered(),
    {
        self.active = true;
    }

    /// Whether a pass is running.
    pub fn is_active(&self) -> (active: bool)
        ensures
            active == self@.active,
    {
        self.active
    }

    /// The backend this context was made for.
    pub fn backend(&self) -> (backend: Backend)
        ensures
            backend == self@.backend,
    {
        self.backend
    }

    /// Whether an error was emitted in this pass. Warnings do not count.
    pub fn is_dirty(&self) -> (dirty: bool)
        ensures
            dirty == self@.dirty(),
    {
        match self.backend {
            Backend::Fallback => self.storage.len() > 0,
            Backend::Rich => self.host_dirty,
        }
    }

    /// Whether a stand-in fragment is set.
    pub fn has_dummy(&self) -> (set: bool)
        ensures
            set == (self@.dummy is Some),
    {
        self.dummy.is_some()
    }

    /// Takes a diagnostic in, as the backend asks: the fallback backend
    /// stores an error and drops a warning, the rich backend hands the
    /// diagnostic to the host.
    pub(crate) fn emit_diagnostic(&mut self, diag: Diagnostic)
        ensures
            final(self)@ == old(self)@.emitted(diag@),
    {
        let is_error = match diag.level() {
            Level::Error => true,
            Level::Warning => false,
        };
        match self.backend {
            Backend::Fallback => {
                if is_error {
                    self.storage.push(diag);
                    assert(self@.storage =~= old(self)@.storage.push(diag@));
                }
            },
            Backend::Rich => {
                if is_error {
                    self.host_dirty = true;
                }
                self.host.push(diag);
                assert(self@.host =~= old(self)@.host.push(diag@));
            },
        }
    }

    /// Takes out the diagnostics that were stored, in the order in which they
    /// were emitted, and leaves none.
    pub(crate) fn drain(&mut self) -> (diags: Vec<Diagnostic>)
        ensures
            views(diags@) == old(self)@.storage,
            final(self)@ == (ContextView { storage: Seq::empty(), ..old(self)@ }),
    {
        let mut diags: Vec<Diagnostic> = Vec::new();
        std::mem::swap(&mut self.storage, &mut diags);
        assert(self@.storage =~= Seq::empty());
        diags
    }

    /// Takes out the diagnostics that were handed to the host, in the order
    /// in which they were emitted, and leaves none.
    pub fn take_host(&mut self) -> (diags: Vec<Diagnostic>)
        ensures
            views(diags@) == old(self)@.host,
            final(self)@ == (ContextView { host: Seq::empty(), ..old(self)@ }),
    {
        let mut diags: Vec<Diagnostic> = Vec::new();
        std::mem::swap(&mut self.host, &mut diags);
        assert(self@.host =~= Seq::empty());
        diags
    }

    /// Sets the stand-in fragment, or takes it away, and returns the one
    /// that was set before.
    pub(crate) fn replace_dummy(&mut self, dummy: Option<TokenStream>) -> (previous: Option<
        TokenStream,
    >)
        ensures
            match previous {
                Some(stream) => old(self)@.dummy == Some(stream_shape(stream)),
                None => old(self)@.dummy is None,
            },
            final(self)@ == (ContextView {
                dummy: match dummy {
                    Some(stream) => Some(stream_shape(stream)),
                    None => None,
                },
                ..old(self)@
            }),
    {
        let mut slot = dummy;
        std::mem::swap(&mut self.dummy, &mut slot);
        slot
    }

    /// Ends the pass: the flag falls, and with it the mark that the host
    /// has seen a diagnostic.
    pub(crate) fn leave(&mut self)
        ensures
            final(self)@ == (ContextView { active: false, host_dirty: false, ..old(self)@ }),
    {
        self.active = false;
        self.host_dirty = false;
    }
}

/// Checks that a pass is running.
pub fn check_correctness(ctx: &Context) -> (checked: Result<(), Signal>)
    ensures
        checked == if ctx@.active {
            Ok::<(), Signal>(())
        } else {
            Err::<(), Signal>(Signal::Misuse)
        },
{
    if ctx.is_active() {
        Ok(())
    } else {
        Err(Signal::Misuse)
    }
}

/// The signal that stops a running pass; outside a pass, the signal for
/// misuse.
pub fn abort_now(ctx: &Context) -> (signal: Signal)
    ensures
        signal == if ctx@.active {
            Signal::Abort
        } else {
            Signal::Misuse
        },
{
    match check_correctness(ctx) {
        Ok(()) => Signal::Abort,
        Err(signal) => signal,
    }
}

/// Stops the pass if an error was emitted in it, and does nothing otherwise.
/// Outside a pass this is misuse.
pub fn abort_if_dirty(ctx: &Context) -> (checked: Result<(), Signal>)
    ensures
        checked == if !ctx@.active {
            Err::<(), Signal>(Signal::Misuse)
        } else if ctx@.dirty() {
            Err::<(), Signal>(Signal::Abort)
        } else {
            Ok::<(), Signal>(())
        },
{
    match check_correctness(ctx) {
        Ok(()) => {},
        Err(signal) => {
            return Err(signal);
        },
    }
    if ctx.is_dirty() {
        Err(abort_now(ctx))
    } else {
        Ok(())
    }
}

impl Diagnostic {
    /// Reports this diagnostic and lets the pass go on. Outside a pass this
    /// is misuse, and the context stays as it is.
    pub fn emit(self, ctx: &mut Context) -> (done: Result<(), Signal>)
        requires
            old(ctx)@.wf(),
        ensures
            final(ctx)@.wf(),
            old(ctx)@.active ==> done == Ok::<(), Signal>(()) && final(ctx)@ == old(ctx)@.emitted(
                self@,
            ),
            !old(ctx)@.active ==> done == Err::<(), Signal>(Signal::Misuse) && final(ctx)@ == old(
                ctx,
            )@,
    {
        match check_correctness(ctx) {
            Ok(()) => {},
            Err(signal) => {
                return Err(signal);
            },
        }
        ctx.emit_diagnostic(self);
        Ok(())
    }

    /// Reports this diagnostic and stops the pass: the signal to hand up to
    /// the entry point. Outside a pass this is misuse, and the context stays
    /// as it is.
    pub fn abort(self, ctx: &mut Context) -> (signal: Signal)
        requires
            old(ctx)@.wf(),
        ensures
            final(ctx)@.wf(),
            old(ctx)@.active ==> signal == Signal::Abort && final(ctx)@ == old(ctx)@.emitted(
                self@,
            ),
            !old(ctx)@.active ==> signal == Signal::Misuse && final(ctx)@ == old(ctx)@,
    {
        match self.emit(ctx) {
            Ok(()) => abort_now(ctx),
            Err(signal) => signal,
        }
    }
}

} // verus!
