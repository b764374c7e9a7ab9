//! The window procedure as a state machine over delivered events.
//!
//! Each event is modelled together with the platform outcomes its handling
//! consumes (a creation that succeeded or failed, an end-of-frame code), so
//! a run over any event history is a pure function of the history. The
//! executable transitions in [`crate::state`] each ensure they equal one
//! piece of a step; the laws at the bottom hold of every run.

use crate::messages::HR_RECREATE_TARGET;
use crate::state::{
    spec_ensure_action, spec_resize_action, EnsureAction, Phase, ResizeAction, StateView,
};
use crate::wide::lemma_wide_of_len;
use vstd::prelude::*;

verus! {

/// One delivered event, carrying the outcomes of the platform calls its
/// handling makes.
pub ghost enum Event {
    /// The bootstrap creation step: the outcomes of the two factory
    /// creations and, where one was attempted, of the text-format creation.
    Init { d2d1: Option<u64>, dwrite: Option<u64>, format: Option<u64> },
    /// A paint request: the outcome of the target-and-brush creation, where
    /// one was needed and attempted, and the end-of-frame result code.
    Paint { created: Option<(u64, u64)>, end_draw: u32 },
    /// A size change of the client area.
    Resize { width: u32, height: u32 },
    /// The window is being destroyed.
    Destroy,
    /// Anything else; forwarded to default handling, touching no state.
    Other,
}

/// The bootstrap step: factories installed once, on a fresh state, and the
/// text format where its factory exists and its creation succeeded.
pub open spec fn step_init(
    v: StateView,
    d2d1: Option<u64>,
    dwrite: Option<u64>,
    format: Option<u64>,
) -> StateView {
    if !v.destroyed && v.resources_empty() {
        let v1 = v.install_factories(d2d1, dwrite);
        if v1.dwrite_factory is Some {
            match format {
                Option::Some(f) => v1.install_format(f),
                Option::None => v1,
            }
        } else {
            v1
        }
    } else {
        v
    }
}

/// A paint request: ensure the render target (install the created pair
/// where one was needed and came to be), then draw, then act on the
/// end-of-frame code — an invalidation tears the target pair down.
pub open spec fn step_paint(v: StateView, created: Option<(u64, u64)>, end_draw: u32) -> StateView {
    let v1 = if spec_ensure_action(v) == EnsureAction::CreateTarget {
        match created {
            Option::Some(pair) => v.install_target(pair.0, pair.1),
            Option::None => v,
        }
    } else {
        v
    };
    if v1.can_paint() && end_draw == HR_RECREATE_TARGET {
        v1.release_target()
    } else {
        v1
    }
}

/// One transition of the window procedure.
pub open spec fn step(v: StateView, e: Event) -> StateView {
    match e {
        Event::Init { d2d1, dwrite, format } => step_init(v, d2d1, dwrite, format),
        Event::Paint { created, end_draw } => step_paint(v, created, end_draw),
        Event::Resize { .. } => v,
        Event::Destroy => v.destroy(),
        Event::Other => v,
    }
}

/// The state after an event history, earliest event first.
pub open spec fn run(v: StateView, evs: Seq<Event>) -> StateView
    decreases evs.len(),
{
    if evs.len() == 0 {
        v
    } else {
        run(step(v, evs[0]), evs.subrange(1, evs.len() as int))
    }
}

/// Every single transition preserves well-formedness.
pub proof fn lemma_step_preserves_inv(v: StateView, e: Event)
    requires
        v.inv(),
    ensures
        step(v, e).inv(),
{
    reveal_strlit("Hello World using DirectWrite!");
    lemma_wide_of_len(crate::state::spec_greeting());
}

/// Well-formedness holds along every run.
pub proof fn lemma_run_preserves_inv(v: StateView, evs: Seq<Event>)
    requires
        v.inv(),
    ensures
        run(v, evs).inv(),
    decreases evs.len(),
{
    if evs.len() > 0 {
        lemma_step_preserves_inv(v, evs[0]);
        lemma_run_preserves_inv(step(v, evs[0]), evs.subrange(1, evs.len() as int));
    }
}

/// Brush and render target are either both present or both absent in every
/// state reachable from a fresh one — the paired-lifetime invariant, at
/// every observation point.
pub proof fn lemma_paired_lifetime(evs: Seq<Event>)
    ensures
        ({
            let v = run(StateView::fresh(), evs);
            v.brush is Some <==> v.render_target is Some
        }),
{
    lemma_run_preserves_inv(StateView::fresh(), evs);
}

/// Teardown is total and idempotent: after any event history applied to a
/// fresh state, `ReleaseAll` leaves every resource slot empty in a
/// well-formed state, and running it again changes nothing.
pub proof fn lemma_teardown_idempotent(evs: Seq<Event>)
    ensures
        ({
            let t = run(StateView::fresh(), evs).release_all();
            t.resources_empty() && t.inv() && t.release_all() == t
        }),
{
    lemma_run_preserves_inv(StateView::fresh(), evs);
    let t = run(StateView::fresh(), evs).release_all();
    assert(t.release_all() =~= t);
}

/// Destroy is terminal: on a destroyed state, every further event — paint,
/// resize, destroy or other — leaves the state exactly as it is.
pub proof fn lemma_destroyed_is_terminal(v: StateView, evs: Seq<Event>)
    requires
        v.destroyed,
        v.inv(),
    ensures
        run(v, evs) == v,
    decreases evs.len(),
{
    if evs.len() > 0 {
        assert(step(v, evs[0]) =~= v);
        lemma_destroyed_is_terminal(v, evs.subrange(1, evs.len() as int));
    }
}

/// Resize never changes the state, and before any render target exists it
/// asks for nothing: a resize before the first paint is a complete no-op.
pub proof fn lemma_resize_noop(v: StateView, width: u32, height: u32)
    requires
        v.render_target is None,
    ensures
        step(v, Event::Resize { width, height }) == v,
        spec_resize_action(v, width, height) == ResizeAction::Ignore,
{
}

/// A target-invalidation outcome from a paint tears down exactly the
/// target pair: target and brush become absent, the text format stays, the
/// state is `Ready`, the next ensure asks to create — and a subsequent
/// paint whose creation succeeds rebuilds both and renders again.
pub proof fn lemma_invalidation_recovery(
    v: StateView,
    created: Option<(u64, u64)>,
    t2: u64,
    b2: u64,
)
    requires
        v.inv(),
        v.can_paint(),
    ensures
        ({
            let lost = step_paint(v, created, HR_RECREATE_TARGET);
            &&& lost.render_target is None
            &&& lost.brush is None
            &&& lost.text_format == v.text_format
            &&& lost.phase() == Phase::Ready
            &&& spec_ensure_action(lost) == EnsureAction::CreateTarget
            &&& {
                let rebuilt = step_paint(lost, Some((t2, b2)), crate::messages::HR_OK);
                rebuilt.render_target == Some(t2) && rebuilt.brush == Some(b2)
                    && rebuilt.phase() == Phase::Rendering
            }
        }),
{
}

} // verus!
