use inochi_bevy::context::{ContextApi, NotCurrent};
use inochi_bevy::coordinator::{init_target, Action, Event, Mode, RenderState, Step, Viewport};
use inochi_bevy::error::RenderError;
use inochi_bevy::surface::RenderTarget;

fn windowed(width: u32, height: u32) -> RenderState {
    RenderState::new(NotCurrent::new(ContextApi::Desktop), Mode::Windowed, Viewport { width, height })
        .unwrap()
}

/// Handles `first`, then reports success until the job ends; gives every action.
fn run_job(state: &mut RenderState, first: Event) -> Vec<Action> {
    let mut actions = vec![state.handle(first)];
    while !matches!(state.step(), Step::Idle | Step::Broken) {
        actions.push(state.handle(Event::Succeeded));
    }
    actions
}

#[test]
fn resize_scenario() {
    let mut state = windowed(800, 800);
    let actions = run_job(&mut state, Event::Resized { width: 1280, height: 720 });
    assert_eq!(state.viewport(), Viewport { width: 1280, height: 720 });
    assert_eq!(state.surface(), Some(RenderTarget::Window { width: 1280, height: 720 }));
    assert_eq!(
        actions,
        vec![
            Action::BuildSurface { width: 1280, height: 720 },
            Action::MakeCurrent { target: RenderTarget::Window { width: 1280, height: 720 } },
            Action::SetSceneViewport { width: 1280, height: 720 },
            Action::SetGlViewport { x: 0, y: 0, width: 1280, height: 720 },
            Action::MakeNotCurrent,
            Action::Finished,
        ]
    );
    assert!(state.is_not_current());
}

#[test]
fn render_scenario() {
    let mut state = windowed(800, 800);
    assert!(state.is_not_current());
    let actions = run_job(&mut state, Event::FrameTick);
    let count = |a: Action| actions.iter().filter(|x| **x == a).count();
    assert_eq!(count(Action::UpdatePuppet), 1);
    assert_eq!(count(Action::DrawPuppet), 1);
    assert_eq!(count(Action::DrawScene { x: 0, y: 0, width: 800, height: 800 }), 1);
    assert_eq!(
        actions,
        vec![
            Action::BuildSurface { width: 800, height: 800 },
            Action::MakeCurrent { target: RenderTarget::Window { width: 800, height: 800 } },
            Action::UpdatePuppet,
            Action::DrawPuppet,
            Action::DrawScene { x: 0, y: 0, width: 800, height: 800 },
            Action::MakeNotCurrent,
            Action::Finished,
        ]
    );
    assert!(state.is_not_current());
    assert_eq!(state.step(), Step::Idle);
}

#[test]
fn context_is_current_only_mid_frame() {
    let mut state = windowed(800, 800);
    state.handle(Event::FrameTick);
    assert!(state.is_not_current());
    state.handle(Event::Succeeded);
    assert!(state.is_not_current());
    assert_eq!(state.handle(Event::Succeeded), Action::UpdatePuppet);
    assert!(state.is_current());
}

#[test]
fn batched_resize_scenario() {
    let mut state = windowed(800, 800);
    let first = run_job(&mut state, Event::Resized { width: 640, height: 480 });
    assert_eq!(state.viewport(), Viewport { width: 640, height: 480 });
    let second = run_job(&mut state, Event::Resized { width: 1920, height: 1080 });
    assert_eq!(first[2], Action::SetSceneViewport { width: 640, height: 480 });
    assert_eq!(second[2], Action::SetSceneViewport { width: 1920, height: 1080 });
    assert_eq!(state.viewport(), Viewport { width: 1920, height: 1080 });
    assert_eq!(state.surface(), Some(RenderTarget::Window { width: 1920, height: 1080 }));
    assert!(state.is_not_current());
}

#[test]
fn resize_mid_job_is_refused() {
    let mut state = windowed(800, 800);
    state.handle(Event::Resized { width: 640, height: 480 });
    assert_eq!(state.handle(Event::Resized { width: 1920, height: 1080 }), Action::Busy);
    assert_eq!(state.handle(Event::FrameTick), Action::Busy);
    run_job(&mut state, Event::Succeeded);
    assert_eq!(state.viewport(), Viewport { width: 640, height: 480 });
}

#[test]
fn frame_after_resize_uses_new_size() {
    let mut state = windowed(800, 800);
    run_job(&mut state, Event::Resized { width: 1280, height: 720 });
    let actions = run_job(&mut state, Event::FrameTick);
    assert_eq!(actions[0], Action::BuildSurface { width: 1280, height: 720 });
    assert_eq!(actions[4], Action::DrawScene { x: 0, y: 0, width: 1280, height: 720 });
}

#[test]
fn zero_resize_is_skipped() {
    let mut state = windowed(800, 800);
    assert_eq!(
        state.handle(Event::Resized { width: 0, height: 720 }),
        Action::Skipped { error: RenderError::InvalidSurfaceDimensions }
    );
    assert_eq!(state.step(), Step::Idle);
    assert_eq!(state.viewport(), Viewport { width: 800, height: 800 });
}

#[test]
fn make_current_failure_skips_frame() {
    let mut state = windowed(800, 800);
    state.handle(Event::FrameTick);
    state.handle(Event::Succeeded);
    assert_eq!(
        state.handle(Event::Failed),
        Action::Skipped { error: RenderError::MakeCurrentFailed }
    );
    assert!(state.is_not_current());
    assert_eq!(state.step(), Step::Idle);
}

#[test]
fn surface_failure_skips_frame() {
    let mut state = windowed(800, 800);
    state.handle(Event::FrameTick);
    assert_eq!(
        state.handle(Event::Failed),
        Action::Skipped { error: RenderError::SurfaceCreationFailed }
    );
    assert!(state.is_not_current());
}

#[test]
fn failure_while_current_still_releases() {
    let mut state = windowed(800, 800);
    state.handle(Event::FrameTick);
    state.handle(Event::Succeeded);
    state.handle(Event::Succeeded);
    assert_eq!(state.handle(Event::Failed), Action::MakeNotCurrent);
    assert_eq!(state.handle(Event::Succeeded), Action::Finished);
    assert!(state.is_not_current());
}

#[test]
fn release_failure_is_fatal() {
    let mut state = windowed(800, 800);
    state.handle(Event::FrameTick);
    for _ in 0..5 {
        state.handle(Event::Succeeded);
    }
    let fatal = Action::Aborted { error: RenderError::MakeNotCurrentFailed };
    assert_eq!(state.handle(Event::Failed), fatal);
    assert_eq!(state.step(), Step::Broken);
    assert!(!state.is_current());
    assert!(!state.is_not_current());
    assert_eq!(state.handle(Event::FrameTick), fatal);
}

#[test]
fn stray_outcome_is_ignored() {
    let mut state = windowed(800, 800);
    assert_eq!(state.handle(Event::Succeeded), Action::Ignored);
    assert_eq!(state.step(), Step::Idle);
}

#[test]
fn offscreen_frame_binds_framebuffer() {
    let mode = Mode::Offscreen { framebuffer: 1, renderbuffer: 2 };
    let mut state = RenderState::new(
        NotCurrent::new(ContextApi::Embedded),
        mode,
        Viewport { width: 800, height: 800 },
    )
    .unwrap();
    let fb = RenderTarget::Framebuffer { framebuffer: 1, renderbuffer: 2, width: 1280, height: 720 };
    let actions = run_job(&mut state, Event::FrameTick);
    assert_eq!(
        actions,
        vec![
            Action::MakeCurrent { target: fb },
            Action::UpdatePuppet,
            Action::DrawPuppet,
            Action::DrawScene { x: 0, y: 0, width: 800, height: 800 },
            Action::MakeNotCurrent,
            Action::Finished,
        ]
    );
    assert_eq!(state.surface(), Some(fb));
    assert_eq!(state.mode(), mode);
}

#[test]
fn offscreen_resize_keeps_framebuffer() {
    let mode = Mode::Offscreen { framebuffer: 1, renderbuffer: 2 };
    let mut state = RenderState::new(
        NotCurrent::new(ContextApi::Embedded),
        mode,
        Viewport { width: 800, height: 800 },
    )
    .unwrap();
    let fb = RenderTarget::Framebuffer { framebuffer: 1, renderbuffer: 2, width: 1280, height: 720 };
    let actions = run_job(&mut state, Event::Resized { width: 640, height: 480 });
    assert_eq!(actions[0], Action::MakeCurrent { target: fb });
    assert_eq!(state.viewport(), Viewport { width: 640, height: 480 });
    assert_eq!(state.surface(), Some(fb));
}

#[test]
fn zero_viewport_is_refused() {
    let r = RenderState::new(
        NotCurrent::new(ContextApi::Desktop),
        Mode::Windowed,
        Viewport { width: 0, height: 800 },
    );
    assert!(matches!(r, Err(RenderError::InvalidSurfaceDimensions)));
}

#[test]
fn init_targets() {
    let v = Viewport { width: 800, height: 800 };
    assert_eq!(init_target(Mode::Windowed, v), RenderTarget::Window { width: 800, height: 800 });
    assert_eq!(
        init_target(Mode::Offscreen { framebuffer: 0, renderbuffer: 0 }, v),
        RenderTarget::Surfaceless
    );
}
