use vstd::prelude::*;

use crate::error::RenderError;
use crate::coordinator::{
    draw_target, model_inv, transition, window_target, Action, Event, Mode, RenderModel, SlotModel, Step,
    Viewport,
};

verus! {

/// The state and the actions after the events from index `i` on are handled
/// in order.
pub open spec fn run_from(m: RenderModel, events: Seq<Event>, i: int) -> (RenderModel, Seq<Action>)
    decreases events.len() - i,
{
    if i < 0 || i >= events.len() {
        (m, Seq::empty())
    } else {
        let (m1, a) = transition(m, events[i]);
        let (m2, rest) = run_from(m1, events, i + 1);
        (m2, seq![a] + rest)
    }
}

/// The state and the actions after all the events are handled in order.
pub open spec fn run(m: RenderModel, events: Seq<Event>) -> (RenderModel, Seq<Action>) {
    run_from(m, events, 0)
}

/// A job started by `first` whose every action succeeds: `n` outcomes follow.
pub open spec fn all_succeed(first: Event, n: nat) -> Seq<Event> {
    seq![first] + Seq::new(n, |i: int| Event::Succeeded)
}

/// Handling a frame tick from an idle, windowed state, with every action
/// succeeding, builds a surface at the viewport's size, binds the context to
/// it, updates and draws the puppet once each, draws the scene once over the
/// whole viewport, and ends idle with the context not current.
pub proof fn lemma_windowed_frame(m: RenderModel)
    requires
        model_inv(m),
        m.step is Idle,
        m.mode is Windowed,
    ensures
        ({
            let (w, h) = (m.viewport.width, m.viewport.height);
            let (end, actions) = run(m, all_succeed(Event::FrameTick, 6));
            &&& actions == seq![
                Action::BuildSurface { width: w, height: h },
                Action::MakeCurrent { target: window_target(w, h) },
                Action::UpdatePuppet,
                Action::DrawPuppet,
                Action::DrawScene { x: 0, y: 0, width: w, height: h },
                Action::MakeNotCurrent,
                Action::Finished,
            ]
            &&& end == (RenderModel { surface: Some(window_target(w, h)), ..m })
            &&& end.slot == SlotModel::NotCurrent
            &&& model_inv(end)
        }),
{
    let ev = all_succeed(Event::FrameTick, 6);
    assert(ev[0] == Event::FrameTick);
    assert(forall|k: int| 1 <= k < 7 ==> ev[k] == Event::Succeeded);
    reveal_with_fuel(run_from, 8);
    let (w, h) = (m.viewport.width, m.viewport.height);
    let (end, actions) = run(m, ev);
    assert(actions =~= seq![
        Action::BuildSurface { width: w, height: h },
        Action::MakeCurrent { target: window_target(w, h) },
        Action::UpdatePuppet,
        Action::DrawPuppet,
        Action::DrawScene { x: 0, y: 0, width: w, height: h },
        Action::MakeNotCurrent,
        Action::Finished,
    ]);
}


/// Handling a frame tick from an idle, offscreen state, with every action
/// succeeding, binds the context to the framebuffer without rebuilding it,
/// updates and draws the puppet once each, draws the scene once over the whole
/// viewport, and ends in the state it started from.
pub proof fn lemma_offscreen_frame(m: RenderModel)
    requires
        model_inv(m),
        m.step is Idle,
        m.mode is Offscreen,
    ensures
        ({
            let (w, h) = (m.viewport.width, m.viewport.height);
            let (end, actions) = run(m, all_succeed(Event::FrameTick, 5));
            &&& actions == seq![
                Action::MakeCurrent { target: draw_target(m) },
                Action::UpdatePuppet,
                Action::DrawPuppet,
                Action::DrawScene { x: 0, y: 0, width: w, height: h },
                Action::MakeNotCurrent,
                Action::Finished,
            ]
            &&& end == m
        }),
{
    let ev = all_succeed(Event::FrameTick, 5);
    assert(ev[0] == Event::FrameTick);
    assert(forall|k: int| 1 <= k < 6 ==> ev[k] == Event::Succeeded);
    reveal_with_fuel(run_from, 7);
    let (w, h) = (m.viewport.width, m.viewport.height);
    let (end, actions) = run(m, ev);
    assert(actions =~= seq![
        Action::MakeCurrent { target: draw_target(m) },
        Action::UpdatePuppet,
        Action::DrawPuppet,
        Action::DrawScene { x: 0, y: 0, width: w, height: h },
        Action::MakeNotCurrent,
        Action::Finished,
    ]);
}

/// Handling a resize notification of non-zero size from an idle, windowed
/// state, with every action succeeding, rebuilds the surface at the new size,
/// binds the context to it, pushes the new size to the scene and to the
/// low-level viewport, and ends idle with the context not current.
pub proof fn lemma_windowed_resize(m: RenderModel, width: u32, height: u32)
    requires
        model_inv(m),
        m.step is Idle,
        m.mode is Windowed,
        width > 0,
        height > 0,
    ensures
        ({
            let (end, actions) = run(m, all_succeed(Event::Resized { width, height }, 5));
            &&& actions == seq![
                Action::BuildSurface { width, height },
                Action::MakeCurrent { target: window_target(width, height) },
                Action::SetSceneViewport { width, height },
                Action::SetGlViewport { x: 0, y: 0, width, height },
                Action::MakeNotCurrent,
                Action::Finished,
            ]
            &&& end == (RenderModel {
                viewport: Viewport { width, height },
                surface: Some(window_target(width, height)),
                ..m
            })
            &&& end.slot == SlotModel::NotCurrent
            &&& model_inv(end)
        }),
{
    let ev = all_succeed(Event::Resized { width, height }, 5);
    assert(ev[0] == Event::Resized { width, height });
    assert(forall|k: int| 1 <= k < 6 ==> ev[k] == Event::Succeeded);
    reveal_with_fuel(run_from, 7);
    let (end, actions) = run(m, ev);
    assert(actions =~= seq![
        Action::BuildSurface { width, height },
        Action::MakeCurrent { target: window_target(width, height) },
        Action::SetSceneViewport { width, height },
        Action::SetGlViewport { x: 0, y: 0, width, height },
        Action::MakeNotCurrent,
        Action::Finished,
    ]);
}

/// Two resize notifications handled one after the other, every action
/// succeeding, leave the viewport and the surface at the second size: the
/// first job runs to its end before the second begins.
pub proof fn lemma_windowed_resizes_in_order(
    m: RenderModel,
    w1: u32,
    h1: u32,
    w2: u32,
    h2: u32,
)
    requires
        model_inv(m),
        m.step is Idle,
        m.mode is Windowed,
        w1 > 0,
        h1 > 0,
        w2 > 0,
        h2 > 0,
    ensures
        ({
            let ev = all_succeed(Event::Resized { width: w1, height: h1 }, 5) + all_succeed(
                Event::Resized { width: w2, height: h2 },
                5,
            );
            let (end, actions) = run(m, ev);
            &&& end == (RenderModel {
                viewport: Viewport { width: w2, height: h2 },
                surface: Some(window_target(w2, h2)),
                ..m
            })
            &&& actions[2] == (Action::SetSceneViewport { width: w1, height: h1 })
            &&& actions[8] == (Action::SetSceneViewport { width: w2, height: h2 })
            &&& actions[5] == Action::Finished
            &&& actions[11] == Action::Finished
        }),
{
    let ev = all_succeed(Event::Resized { width: w1, height: h1 }, 5) + all_succeed(
        Event::Resized { width: w2, height: h2 },
        5,
    );
    assert(ev[0] == Event::Resized { width: w1, height: h1 });
    assert(ev[6] == Event::Resized { width: w2, height: h2 });
    assert(forall|k: int| 1 <= k < 6 ==> ev[k] == Event::Succeeded);
    assert(forall|k: int| 7 <= k < 12 ==> ev[k] == Event::Succeeded);
    reveal_with_fuel(run_from, 13);
}

/// While a job is in flight, a frame tick or a resize notification changes
/// nothing: only one job runs at a time.
pub proof fn lemma_one_job_at_a_time(m: RenderModel, e: Event)
    requires
        !(m.step is Idle),
        !(m.step is Broken),
        e is FrameTick || e is Resized,
    ensures
        transition(m, e) == (m, Action::Busy),
{
}

/// Whatever arrives after unbinding failed, nothing changes and the failure
/// is reported again.
pub proof fn lemma_broken_is_final(m: RenderModel, e: Event)
    requires
        m.step is Broken,
    ensures
        transition(m, e) == (m, Action::Aborted { error: RenderError::MakeNotCurrentFailed }),
{
}

/// Every transition keeps the invariant; in particular an idle state never
/// holds the context current.
pub proof fn lemma_inv_kept(m: RenderModel, e: Event)
    requires
        model_inv(m),
    ensures
        model_inv(transition(m, e).0),
        transition(m, e).0.step is Idle ==> transition(m, e).0.slot == SlotModel::NotCurrent,
{
}

} // verus!
