use vstd::prelude::*;

use crate::context::{Current, NotCurrent};
use crate::error::RenderError;
use replace_with::replace_with;

use crate::surface::{RenderTarget, OFFSCREEN_HEIGHT, OFFSCREEN_WIDTH};

verus! {

/// The logical size used for projection and for the low-level viewport.
#[derive(Debug, Clone, Copy, PartialEq, Eq, Structural)]
pub struct Viewport {
    pub width: u32,
    pub height: u32,
}

/// Where frames are drawn.
#[derive(Debug, Clone, Copy, PartialEq, Eq, Structural)]
pub enum Mode {
    /// Into a window surface, rebuilt at the viewport's size before binding.
    Windowed,
    /// Into a framebuffer object with its colour renderbuffer; never rebuilt.
    Offscreen { framebuffer: u32, renderbuffer: u32 },
}

/// How far the job in flight has come; the host owes the outcome of the
/// action last issued.
#[derive(Debug, Clone, Copy, PartialEq, Eq, Structural)]
pub enum Step {
    /// No job in flight; the context is not current.
    Idle,
    /// A frame waits for its window surface.
    FrameSurface,
    /// A frame waits for the context to be bound to `target`.
    FrameBind { target: RenderTarget },
    /// A frame waits for the puppet's update.
    FrameUpdate,
    /// A frame waits for the puppet's draw.
    FrameDrawPuppet,
    /// A frame waits for the scene's draw.
    FrameDrawScene,
    /// A resize waits for the window surface of the new size.
    ResizeSurface { width: u32, height: u32 },
    /// A resize waits for the context to be bound to `target`.
    ResizeBind { target: RenderTarget, width: u32, height: u32 },
    /// A resize waits for the scene's viewport to take the new size.
    ResizeViewport,
    /// A resize waits for the low-level viewport command.
    ResizeGlViewport,
    /// The job waits for the context to be unbound.
    Releasing,
    /// Unbinding failed: no safe owning state remains.
    Broken,
}

/// What the host reports.
#[derive(Debug, Clone, Copy, PartialEq, Eq, Structural)]
pub enum Event {
    /// A frame tick.
    FrameTick,
    /// A resize notification.
    Resized { width: u32, height: u32 },
    /// The action last issued succeeded.
    Succeeded,
    /// The action last issued failed.
    Failed,
}

/// What the host is to do next.
#[derive(Debug, Clone, Copy, PartialEq, Eq, Structural)]
pub enum Action {
    /// Build a window surface of exactly this size, discarding the old one.
    BuildSurface { width: u32, height: u32 },
    /// Make the context current against the target.
    MakeCurrent { target: RenderTarget },
    /// Advance the puppet's animation.
    UpdatePuppet,
    /// Draw the puppet.
    DrawPuppet,
    /// Draw the scene within these bounds.
    DrawScene { x: u32, y: u32, width: u32, height: u32 },
    /// Give the scene its new viewport size.
    SetSceneViewport { width: u32, height: u32 },
    /// Issue the low-level viewport command.
    SetGlViewport { x: u32, y: u32, width: u32, height: u32 },
    /// Make the context not current.
    MakeNotCurrent,
    /// The job is complete and the context is not current.
    Finished,
    /// The job was dropped; the context never left the not-current state.
    Skipped { error: RenderError },
    /// Fatal: the context could not be returned to the not-current state.
    Aborted { error: RenderError },
    /// A new job was asked for while one is in flight; nothing changed.
    Busy,
    /// An outcome arrived while no action was pending; nothing changed.
    Ignored,
}

/// The context slot as the model sees it.
#[derive(Debug, Clone, Copy, PartialEq, Eq, Structural)]
pub enum SlotModel {
    NotCurrent,
    Current { target: RenderTarget },
    Lost,
}

/// The whole render state as plain values.
#[derive(Debug, Clone, Copy, PartialEq, Eq, Structural)]
pub struct RenderModel {
    pub mode: Mode,
    pub viewport: Viewport,
    pub surface: Option<RenderTarget>,
    pub slot: SlotModel,
    pub step: Step,
}

/// The context itself, in exactly one of its states.
#[derive(Debug)]
pub enum ContextSlot {
    NotCurrent(NotCurrent),
    Current(Current),
    Lost,
}

/// The render state shared by the frame and resize paths: it owns the context
/// and moves it between its states, one job at a time.
#[derive(Debug)]
pub struct RenderState {
    mode: Mode,
    viewport: Viewport,
    surface: Option<RenderTarget>,
    slot: ContextSlot,
    step: Step,
}

pub open spec fn window_target(width: u32, height: u32) -> RenderTarget {
    RenderTarget::Window { width, height }
}

pub open spec fn framebuffer_target(framebuffer: u32, renderbuffer: u32) -> RenderTarget {
    RenderTarget::Framebuffer {
        framebuffer,
        renderbuffer,
        width: OFFSCREEN_WIDTH,
        height: OFFSCREEN_HEIGHT,
    }
}

/// The steps during which the context is current and in use.
pub open spec fn in_use(step: Step) -> bool {
    ||| step is FrameUpdate
    ||| step is FrameDrawPuppet
    ||| step is FrameDrawScene
    ||| step is ResizeViewport
    ||| step is ResizeGlViewport
}

/// The target a context in use must be bound to: the window surface of the
/// viewport's size, or the offscreen framebuffer.
pub open spec fn draw_target(m: RenderModel) -> RenderTarget {
    match m.mode {
        Mode::Windowed => window_target(m.viewport.width, m.viewport.height),
        Mode::Offscreen { framebuffer, renderbuffer } => framebuffer_target(framebuffer, renderbuffer),
    }
}

/// What holds of the render state between any two events.
pub open spec fn model_inv(m: RenderModel) -> bool {
    &&& m.viewport.width > 0
    &&& m.viewport.height > 0
    &&& (m.slot is Lost <==> m.step is Broken)
    &&& (m.slot is Current <==> (in_use(m.step) || m.step is Releasing))
    &&& in_use(m.step) ==> m.slot == (SlotModel::Current { target: draw_target(m) })
    &&& (m.mode is Windowed && in_use(m.step)) ==> m.surface == Some(draw_target(m))
    &&& m.step matches Step::FrameBind { target } ==> {
        &&& target == draw_target(m)
        &&& m.mode is Windowed ==> m.surface == Some(target)
    }
    &&& m.step matches Step::ResizeSurface { width, height } ==> {
        &&& width > 0
        &&& height > 0
        &&& m.mode is Windowed
    }
    &&& m.step matches Step::ResizeBind { target, width, height } ==> {
        &&& width > 0
        &&& height > 0
        &&& target == match m.mode {
            Mode::Windowed => window_target(width, height),
            Mode::Offscreen { framebuffer, renderbuffer } => framebuffer_target(
                framebuffer,
                renderbuffer,
            ),
        }
        &&& m.mode is Windowed ==> m.surface == Some(target)
    }
}

/// The state a job starts from.
pub open spec fn starting(mode: Mode, viewport: Viewport) -> RenderModel {
    RenderModel {
        mode,
        viewport,
        surface: match mode {
            Mode::Windowed => None,
            Mode::Offscreen { framebuffer, renderbuffer } => Some(
                framebuffer_target(framebuffer, renderbuffer),
            ),
        },
        slot: SlotModel::NotCurrent,
        step: Step::Idle,
    }
}

/// The transition table: the next state and the action the host is to take.
pub open spec fn transition(m: RenderModel, e: Event) -> (RenderModel, Action) {
    match m.step {
        Step::Idle => match e {
            Event::FrameTick => match m.mode {
                Mode::Windowed => (
                    RenderModel { step: Step::FrameSurface, ..m },
                    Action::BuildSurface { width: m.viewport.width, height: m.viewport.height },
                ),
                Mode::Offscreen { .. } => (
                    RenderModel { step: Step::FrameBind { target: draw_target(m) }, ..m },
                    Action::MakeCurrent { target: draw_target(m) },
                ),
            },
            Event::Resized { width, height } => if width == 0 || height == 0 {
                (m, Action::Skipped { error: RenderError::InvalidSurfaceDimensions })
            } else {
                match m.mode {
                    Mode::Windowed => (
                        RenderModel { step: Step::ResizeSurface { width, height }, ..m },
                        Action::BuildSurface { width, height },
                    ),
                    Mode::Offscreen { .. } => (
                        RenderModel {
                            step: Step::ResizeBind { target: draw_target(m), width, height },
                            ..m
                        },
                        Action::MakeCurrent { target: draw_target(m) },
                    ),
                }
            },
            _ => (m, Action::Ignored),
        },
        Step::Broken => (m, Action::Aborted { error: RenderError::MakeNotCurrentFailed }),
        _ => match e {
            Event::FrameTick => (m, Action::Busy),
            Event::Resized { .. } => (m, Action::Busy),
            Event::Succeeded => advance(m),
            Event::Failed => fail(m),
        },
    }
}

/// The next state and action once the pending action succeeded.
pub open spec fn advance(m: RenderModel) -> (RenderModel, Action) {
    match m.step {
        Step::FrameSurface => {
            let t = draw_target(m);
            (
                RenderModel { step: Step::FrameBind { target: t }, surface: Some(t), ..m },
                Action::MakeCurrent { target: t },
            )
        },
        Step::FrameBind { target } => (
            RenderModel { step: Step::FrameUpdate, slot: SlotModel::Current { target }, ..m },
            Action::UpdatePuppet,
        ),
        Step::FrameUpdate => (RenderModel { step: Step::FrameDrawPuppet, ..m }, Action::DrawPuppet),
        Step::FrameDrawPuppet => (
            RenderModel { step: Step::FrameDrawScene, ..m },
            Action::DrawScene { x: 0, y: 0, width: m.viewport.width, height: m.viewport.height },
        ),
        Step::ResizeSurface { width, height } => {
            let t = window_target(width, height);
            (
                RenderModel {
                    step: Step::ResizeBind { target: t, width, height },
                    surface: Some(t),
                    ..m
                },
                Action::MakeCurrent { target: t },
            )
        },
        Step::ResizeBind { target, width, height } => (
            RenderModel {
                step: Step::ResizeViewport,
                slot: SlotModel::Current { target },
                viewport: Viewport { width, height },
                ..m
            },
            Action::SetSceneViewport { width, height },
        ),
        Step::ResizeViewport => (
            RenderModel { step: Step::ResizeGlViewport, ..m },
            Action::SetGlViewport { x: 0, y: 0, width: m.viewport.width, height: m.viewport.height },
        ),
        Step::Releasing => (
            RenderModel { step: Step::Idle, slot: SlotModel::NotCurrent, ..m },
            Action::Finished,
        ),
        // the scene has been drawn, or the low-level viewport set
        _ => (RenderModel { step: Step::Releasing, ..m }, Action::MakeNotCurrent),
    }
}

/// The next state and action once the pending action failed.
pub open spec fn fail(m: RenderModel) -> (RenderModel, Action) {
    match m.step {
        Step::FrameSurface => (
            RenderModel { step: Step::Idle, ..m },
            Action::Skipped { error: RenderError::SurfaceCreationFailed },
        ),
        Step::ResizeSurface { .. } => (
            RenderModel { step: Step::Idle, ..m },
            Action::Skipped { error: RenderError::SurfaceCreationFailed },
        ),
        Step::FrameBind { .. } => (
            RenderModel { step: Step::Idle, ..m },
            Action::Skipped { error: RenderError::MakeCurrentFailed },
        ),
        Step::ResizeBind { .. } => (
            RenderModel { step: Step::Idle, ..m },
            Action::Skipped { error: RenderError::MakeCurrentFailed },
        ),
        Step::Releasing => (
            RenderModel { step: Step::Broken, slot: SlotModel::Lost, ..m },
            Action::Aborted { error: RenderError::MakeNotCurrentFailed },
        ),
        // the context is in use: the rest of the job is dropped, and it is released
        _ => (RenderModel { step: Step::Releasing, ..m }, Action::MakeNotCurrent),
    }
}


/// Relies on replace_with::replace_with: it moves the value out of `dest`,
/// hands it to `f`, and stores what `f` returns; `default` is called only if
/// `f` unwinds.
pub assume_specification<T, D: FnOnce() -> T, F: FnOnce(T) -> T>[ replace_with::replace_with::<
    T,
    D,
    F,
> ](dest: &mut T, default: D, f: F)
    requires
        f.requires((*old(dest),)),
    ensures
        f.ensures((*old(dest),), *final(dest)),
;

/// The state of the context held in a slot.
pub closed spec fn slot_model(slot: ContextSlot) -> SlotModel {
    match slot {
        ContextSlot::NotCurrent(_) => SlotModel::NotCurrent,
        ContextSlot::Current(c) => SlotModel::Current { target: c.target_spec() },
        ContextSlot::Lost => SlotModel::Lost,
    }
}

pub open spec fn current_at(target: RenderTarget) -> SlotModel {
    SlotModel::Current { target }
}

/// The target for the one-time initialisation right after the context is
/// created: none for offscreen rendering, which then builds its own
/// framebuffer; a window surface of the viewport's size otherwise.
pub fn init_target(mode: Mode, viewport: Viewport) -> (r: RenderTarget)
    ensures
        mode is Offscreen ==> r == RenderTarget::Surfaceless,
        mode is Windowed ==> r == window_target(viewport.width, viewport.height),
{
    match mode {
        Mode::Windowed => RenderTarget::Window { width: viewport.width, height: viewport.height },
        Mode::Offscreen { .. } => RenderTarget::Surfaceless,
    }
}

impl View for RenderState {
    type V = RenderModel;

    closed spec fn view(&self) -> RenderModel {
        RenderModel {
            mode: self.mode,
            viewport: self.viewport,
            surface: self.surface,
            slot: slot_model(self.slot),
            step: self.step,
        }
    }
}

impl RenderState {
    /// A render state holding `ctx`, not current, with no job in flight.
    /// The viewport must have both dimensions non-zero.
    pub fn new(ctx: NotCurrent, mode: Mode, viewport: Viewport) -> (r: Result<RenderState, RenderError>)
        ensures
            viewport.width > 0 && viewport.height > 0 ==> (r matches Ok(s) && s@ == starting(
                mode,
                viewport,
            )),
            viewport.width == 0 || viewport.height == 0 ==> (r matches Err(e) && e
                == RenderError::InvalidSurfaceDimensions),
            r matches Ok(s) ==> model_inv(s@),
    {
        if viewport.width == 0 || viewport.height == 0 {
            return Err(RenderError::InvalidSurfaceDimensions);
        }
        let surface = match mode {
            Mode::Windowed => None,
            Mode::Offscreen { framebuffer, renderbuffer } => Some(
                RenderTarget::Framebuffer {
                    framebuffer,
                    renderbuffer,
                    width: OFFSCREEN_WIDTH,
                    height: OFFSCREEN_HEIGHT,
                },
            ),
        };
        Ok(RenderState { mode, viewport, surface, slot: ContextSlot::NotCurrent(ctx), step: Step::Idle })
    }

    /// The target a context in use is bound to.
    fn draw_target(&self) -> (r: RenderTarget)
        ensures
            r == draw_target(self@),
    {
        match self.mode {
            Mode::Windowed => RenderTarget::Window {
                width: self.viewport.width,
                height: self.viewport.height,
            },
            Mode::Offscreen { framebuffer, renderbuffer } => RenderTarget::Framebuffer {
                framebuffer,
                renderbuffer,
                width: OFFSCREEN_WIDTH,
                height: OFFSCREEN_HEIGHT,
            },
        }
    }

    /// Moves the not-current context into the current state, bound to `target`.
    fn bind(&mut self, target: RenderTarget)
        requires
            old(self).slot is NotCurrent,
        ensures
            final(self)@ == (RenderModel {
                slot: SlotModel::Current { target },
                ..old(self)@
            }),
    {
        let to_current = |slot: ContextSlot| -> (r: ContextSlot)
            requires
                slot is NotCurrent,
            ensures
                slot_model(r) == current_at(target),
            {
                match slot {
                    ContextSlot::NotCurrent(ctx) => ContextSlot::Current(ctx.acquire(target)),
                    other => other,
                }
            };
        replace_with(&mut self.slot, || ContextSlot::Lost, to_current);
    }

    /// Moves the current context back into the not-current state.
    fn unbind(&mut self)
        requires
            old(self).slot is Current,
        ensures
            final(self)@ == (RenderModel { slot: SlotModel::NotCurrent, ..old(self)@ }),
    {
        let to_not_current = |slot: ContextSlot| -> (r: ContextSlot)
            requires
                slot is Current,
            ensures
                slot_model(r) == SlotModel::NotCurrent,
            {
                match slot {
                    ContextSlot::Current(ctx) => ContextSlot::NotCurrent(ctx.release()),
                    other => other,
                }
            };
        replace_with(&mut self.slot, || ContextSlot::Lost, to_not_current);
    }

    /// Takes one event and gives the action the host is to perform next.
    pub fn handle(&mut self, event: Event) -> (r: Action)
        requires
            model_inv(old(self)@),
        ensures
            (final(self)@, r) == transition(old(self)@, event),
            model_inv(final(self)@),
    {
        match self.step {
            Step::Idle => match event {
                Event::FrameTick => match self.mode {
                    Mode::Windowed => {
                        self.step = Step::FrameSurface;
                        Action::BuildSurface {
                            width: self.viewport.width,
                            height: self.viewport.height,
                        }
                    },
                    Mode::Offscreen { .. } => {
                        let target = self.draw_target();
                        self.step = Step::FrameBind { target };
                        Action::MakeCurrent { target }
                    },
                },
                Event::Resized { width, height } => {
                    if width == 0 || height == 0 {
                        Action::Skipped { error: RenderError::InvalidSurfaceDimensions }
                    } else {
                        match self.mode {
                            Mode::Windowed => {
                                self.step = Step::ResizeSurface { width, height };
                                Action::BuildSurface { width, height }
                            },
                            Mode::Offscreen { .. } => {
                                let target = self.draw_target();
                                self.step = Step::ResizeBind { target, width, height };
                                Action::MakeCurrent { target }
                            },
                        }
                    }
                },
                _ => Action::Ignored,
            },
            Step::Broken => Action::Aborted { error: RenderError::MakeNotCurrentFailed },
            _ => match event {
                Event::FrameTick => Action::Busy,
                Event::Resized { .. } => Action::Busy,
                Event::Succeeded => self.advance(),
                Event::Failed => self.fail(),
            },
        }
    }

    fn advance(&mut self) -> (r: Action)
        requires
            model_inv(old(self)@),
            !(old(self).step is Idle),
            !(old(self).step is Broken),
        ensures
            (final(self)@, r) == advance(old(self)@),
    {
        match self.step {
            Step::FrameSurface => {
                let target = self.draw_target();
                self.step = Step::FrameBind { target };
                self.surface = Some(target);
                Action::MakeCurrent { target }
            },
            Step::FrameBind { target } => {
                self.bind(target);
                self.step = Step::FrameUpdate;
                Action::UpdatePuppet
            },
            Step::FrameUpdate => {
                self.step = Step::FrameDrawPuppet;
                Action::DrawPuppet
            },
            Step::FrameDrawPuppet => {
                self.step = Step::FrameDrawScene;
                Action::DrawScene {
                    x: 0,
                    y: 0,
                    width: self.viewport.width,
                    height: self.viewport.height,
                }
            },
            Step::ResizeSurface { width, height } => {
                let target = RenderTarget::Window { width, height };
                self.step = Step::ResizeBind { target, width, height };
                self.surface = Some(target);
                Action::MakeCurrent { target }
            },
            Step::ResizeBind { target, width, height } => {
                self.bind(target);
                self.step = Step::ResizeViewport;
                self.viewport = Viewport { width, height };
                Action::SetSceneViewport { width, height }
            },
            Step::ResizeViewport => {
                self.step = Step::ResizeGlViewport;
                Action::SetGlViewport {
                    x: 0,
                    y: 0,
                    width: self.viewport.width,
                    height: self.viewport.height,
                }
            },
            Step::Releasing => {
                self.unbind();
                self.step = Step::Idle;
                Action::Finished
            },
            _ => {
                self.step = Step::Releasing;
                Action::MakeNotCurrent
            },
        }
    }

    fn fail(&mut self) -> (r: Action)
        requires
            model_inv(old(self)@),
            !(old(self).step is Idle),
            !(old(self).step is Broken),
        ensures
            (final(self)@, r) == fail(old(self)@),
    {
        match self.step {
            Step::FrameSurface | Step::ResizeSurface { .. } => {
                self.step = Step::Idle;
                Action::Skipped { error: RenderError::SurfaceCreationFailed }
            },
            Step::FrameBind { .. } | Step::ResizeBind { .. } => {
                self.step = Step::Idle;
                Action::Skipped { error: RenderError::MakeCurrentFailed }
            },
            Step::Releasing => {
                self.slot = ContextSlot::Lost;
                self.step = Step::Broken;
                Action::Aborted { error: RenderError::MakeNotCurrentFailed }
            },
            _ => {
                self.step = Step::Releasing;
                Action::MakeNotCurrent
            },
        }
    }

    pub fn viewport(&self) -> (r: Viewport)
        ensures
            r == self@.viewport,
    {
        self.viewport
    }

    pub fn surface(&self) -> (r: Option<RenderTarget>)
        ensures
            r == self@.surface,
    {
        self.surface
    }

    pub fn mode(&self) -> (r: Mode)
        ensures
            r == self@.mode,
    {
        self.mode
    }

    pub fn step(&self) -> (r: Step)
        ensures
            r == self@.step,
    {
        self.step
    }

    /// Whether the context is current.
    pub fn is_current(&self) -> (r: bool)
        ensures
            r == (self@.slot is Current),
    {
        match self.slot {
            ContextSlot::Current(_) => true,
            _ => false,
        }
    }

    /// Whether the context is held not current.
    pub fn is_not_current(&self) -> (r: bool)
        ensures
            r == (self@.slot is NotCurrent),
    {
        match self.slot {
            ContextSlot::NotCurrent(_) => true,
            _ => false,
        }
    }
}

} // verus!
