//! What holds of whole passes: statements that relate several operations,
//! proved from the contracts of the operations.

use vstd::prelude::*;
use proc_macro2::TokenStream;
use crate::context::{Backend, ContextView};
use crate::diagnostic::{DiagnosticView, Level, Site};
use crate::entry::{concludes, is_failure, started, Outcome};
use crate::recover::{
    converts, diagnostic_of, lemma_recover_rendered, messages_of, recovered, renders_messages,
};
use crate::render::{all_sites, rendered};
use crate::tokens::Shape;

verus! {

/// The state after the diagnostics of `diags` have been emitted, one after
/// the other, starting in `state`.
pub open spec fn emitted_all(state: ContextView, diags: Seq<DiagnosticView>) -> ContextView
    decreases diags.len(),
{
    if diags.len() == 0 {
        state
    } else {
        emitted_all(state, diags.drop_last()).emitted(diags.last())
    }
}

/// An error that has no child messages: it is rendered as exactly one site.
pub open spec fn is_single_error(diag: DiagnosticView) -> bool {
    diag.level == Level::Error && diag.children.len() == 0
}

/// The site at which a diagnostic shows its main message.
pub open spec fn main_site(diag: DiagnosticView) -> Site {
    Site { start: diag.start, end: diag.end, message: diag.composed() }
}

/// The errors among `diags`, in their order.
pub open spec fn errors_among(diags: Seq<DiagnosticView>) -> Seq<DiagnosticView>
    decreases diags.len(),
{
    if diags.len() == 0 {
        Seq::<DiagnosticView>::empty()
    } else if diags.last().level == Level::Error {
        errors_among(diags.drop_last()).push(diags.last())
    } else {
        errors_among(diags.drop_last())
    }
}

/// With the fallback backend, emitting stores the errors in the order of
/// emission and changes nothing else.
pub proof fn lemma_emitted_all(state: ContextView, diags: Seq<DiagnosticView>)
    requires
        state.backend == Backend::Fallback,
    ensures
        emitted_all(state, diags) == (ContextView {
            storage: state.storage + errors_among(diags),
            ..state
        }),
    decreases diags.len(),
{
    if diags.len() == 0 {
        assert(state.storage + errors_among(diags) =~= state.storage);
    } else {
        lemma_emitted_all(state, diags.drop_last());
        let front = errors_among(diags.drop_last());
        if diags.last().level == Level::Error {
            assert(state.storage + front.push(diags.last()) =~= (state.storage + front).push(
                diags.last(),
            ));
        }
    }
}

/// Where every diagnostic is an error, the errors among them are all of them.
pub proof fn lemma_all_errors(diags: Seq<DiagnosticView>)
    requires
        forall|i: int| 0 <= i < diags.len() ==> (#[trigger] diags[i]).level == Level::Error,
    ensures
        errors_among(diags) == diags,
    decreases diags.len(),
{
    if diags.len() > 0 {
        let front = diags.drop_last();
        assert forall|i: int| 0 <= i < front.len() implies (#[trigger] front[i]).level
            == Level::Error by {
            assert(front[i] == diags[i]);
        }
        lemma_all_errors(front);
        assert(diags.last() == diags[diags.len() - 1]);
        assert(front.push(diags.last()) =~= diags);
    } else {
        assert(errors_among(diags) =~= diags);
    }
}

/// Errors without children are rendered one site each, in their order.
pub proof fn lemma_single_errors(diags: Seq<DiagnosticView>)
    requires
        forall|i: int| 0 <= i < diags.len() ==> is_single_error(#[trigger] diags[i]),
    ensures
        all_sites(diags) == diags.map_values(|d: DiagnosticView| main_site(d)),
    decreases diags.len(),
{
    let sites = diags.map_values(|d: DiagnosticView| main_site(d));
    if diags.len() == 0 {
        assert(all_sites(diags) =~= sites);
    } else {
        let front = diags.drop_last();
        assert forall|i: int| 0 <= i < front.len() implies is_single_error(
            #[trigger] front[i],
        ) by {
            assert(front[i] == diags[i]);
        }
        lemma_single_errors(front);
        assert(is_single_error(diags[diags.len() - 1]));
        assert(diags.last().sites() =~= seq![main_site(diags.last())]);
        assert(all_sites(diags) =~= sites);
    }
}

/// A pass in which `diags` were emitted and whose generation function then
/// returned `tokens`: if no error was emitted the pass hands `tokens` back;
/// otherwise `tokens` is dropped and the pass hands back the rendering of
/// the emitted errors in the order of emission. Where all that was emitted
/// are errors without children, these are as many sites as diagnostics were
/// emitted, the `i`-th at the location and with the composed message of the
/// `i`-th diagnostic.
pub proof fn law_emitted_then_returned<E>(
    diags: Seq<DiagnosticView>,
    tokens: TokenStream,
    proc_macro_hack: bool,
    out: Result<TokenStream, E>,
)
    requires
        concludes(
            emitted_all(started(), diags),
            Outcome::<TokenStream, E>::Returned(tokens),
            proc_macro_hack,
            out,
        ),
    ensures
        errors_among(diags).len() == 0 ==> out == Ok::<TokenStream, E>(tokens),
        errors_among(diags).len() > 0 ==> is_failure(
            ContextView { storage: errors_among(diags), ..started() },
            proc_macro_hack,
            out,
        ),
        (forall|i: int| 0 <= i < diags.len() ==> is_single_error(#[trigger] diags[i]))
            ==> errors_among(diags) == diags && all_sites(diags).len() == diags.len()
            && forall|i: int|
            0 <= i < diags.len() ==> #[trigger] all_sites(diags)[i] == main_site(diags[i]),
{
    lemma_emitted_all(started(), diags);
    assert(started().storage + errors_among(diags) =~= errors_among(diags));
    if forall|i: int| 0 <= i < diags.len() ==> is_single_error(#[trigger] diags[i]) {
        lemma_all_errors(diags);
        lemma_single_errors(diags);
    }
}

/// A pass in which `prior` were emitted and which was then aborted with the
/// error `last`: the pass hands back the rendering of the errors among
/// `prior` and of `last`, in the order of emission, so that the sites of
/// `last` come last. Where all of them are errors without children, these
/// are one site more than diagnostics were emitted before.
pub proof fn law_abort_renders_all<E>(
    prior: Seq<DiagnosticView>,
    last: DiagnosticView,
    proc_macro_hack: bool,
    out: Result<TokenStream, E>,
)
    requires
        last.level == Level::Error,
        concludes(
            emitted_all(started(), prior).emitted(last),
            Outcome::<TokenStream, E>::Aborted,
            proc_macro_hack,
            out,
        ),
    ensures
        is_failure(
            ContextView { storage: errors_among(prior).push(last), ..started() },
            proc_macro_hack,
            out,
        ),
        all_sites(errors_among(prior).push(last)) == all_sites(errors_among(prior)) + last.sites(),
        (forall|i: int| 0 <= i < prior.len() ==> is_single_error(#[trigger] prior[i]))
            && is_single_error(last) ==> all_sites(errors_among(prior).push(last)).len()
            == prior.len() + 1 && all_sites(errors_among(prior).push(last)).last() == main_site(
            last,
        ),
{
    lemma_emitted_all(started(), prior);
    let stored = errors_among(prior);
    assert(started().storage + stored =~= stored);
    assert(stored.push(last).drop_last() =~= stored);
    if (forall|i: int| 0 <= i < prior.len() ==> is_single_error(#[trigger] prior[i]))
        && is_single_error(last) {
        lemma_all_errors(prior);
        let all = prior.push(last);
        assert forall|i: int| 0 <= i < all.len() implies is_single_error(#[trigger] all[i]) by {
            if i < prior.len() {
                assert(all[i] == prior[i]);
            }
        }
        lemma_single_errors(all);
    }
}

/// Setting a stand-in and appending to it twice leaves one fragment: the
/// three pieces in the order of the calls. A pass that fails then hands it
/// back behind the diagnostics, and leaves no stand-in behind.
pub proof fn law_dummy_pieces(
    state: ContextView,
    first: Seq<Shape>,
    second: Seq<Shape>,
    third: Seq<Shape>,
)
    ensures
        ({
            let set = state.with_dummy(first);
            let once = set.with_dummy(set.dummy->0 + second);
            let twice = once.with_dummy(once.dummy->0 + third);
            &&& twice == state.with_dummy(first + second + third)
            &&& twice.dummy_shape() == first + second + third
            &&& twice.left().dummy is None
        }),
{
}

/// A pass that has been left leaves nothing behind, however it ended: with
/// the fallback backend the next pass starts in the state in which a first
/// pass starts.
pub proof fn law_next_pass_starts_clean(state: ContextView)
    requires
        state.wf(),
    ensures
        !state.left().active,
        state.left().storage.len() == 0,
        state.left().dummy is None,
        !state.left().dirty(),
        state.left().wf(),
        state.backend == Backend::Fallback ==> state.left().entered() == started(),
{
    if state.backend == Backend::Fallback {
        assert(state.left().host =~= Seq::<DiagnosticView>::empty());
        assert(state.left().entered() =~= started());
    }
}

/// Round trip: errors that were rendered by another party come back as a
/// diagnostic whose own rendering is the rendering that was read: the same
/// locations and the same messages, in the same order, whatever the
/// messages hold.
pub proof fn law_round_trip(sites: Seq<Site>)
    requires
        sites.len() >= 1,
    ensures
        recovered(rendered(sites)) == Some(sites),
        diagnostic_of(sites).sites() == sites,
        rendered(diagnostic_of(sites).sites()) == rendered(sites),
{
    lemma_recover_rendered(sites);
    assert(diagnostic_of(sites).sites() =~= sites);
}

/// Round trip of a foreign error: where `shapes` is the error's own
/// rendering of its `messages` and `diag` is what the error was converted
/// into, the rendering of `diag` shows the same messages in the same order,
/// and so does what is read back from either rendering.
pub proof fn law_foreign_round_trip(
    messages: Seq<Seq<char>>,
    shapes: Seq<Shape>,
    diag: DiagnosticView,
)
    requires
        renders_messages(shapes, messages),
        converts(messages, diag),
    ensures
        renders_messages(rendered(diag.sites()), messages),
        recovered(shapes) matches Some(sites) && messages_of(sites) == messages,
        recovered(rendered(diag.sites())) matches Some(sites) && messages_of(sites) == messages,
        recovered(shapes) == Some(diag.sites()) ==> rendered(diag.sites()) == shapes,
{
    let read = choose|sites: Seq<Site>|
        sites.len() >= 1 && messages_of(sites) == messages && shapes == #[trigger] rendered(
            sites,
        );
    let made = choose|sites: Seq<Site>|
        sites.len() >= 1 && messages_of(sites) == messages && diag == #[trigger] diagnostic_of(
            sites,
        );
    lemma_recover_rendered(read);
    lemma_recover_rendered(made);
    assert(diagnostic_of(made).sites() =~= made);
    assert(rendered(diag.sites()) == rendered(made));
}

} // verus!
