//! The application state machine: window events in, actions out.
//!
//! The caller owns the window and the graphics objects. It hands each window
//! event to [`Lifecycle::step`], performs the action that comes back and,
//! where that action has an outcome (initialisation, a frame), hands the
//! outcome back as the next event.

use vstd::prelude::*;
use crate::frame::{FramePlan, background, frame_plan, quad_frame};
use crate::vertex::{VERTEX_COUNT, VERTEX_SIZE, mesh_words, quad, word_bytes};

verus! {

/// Most images the presentation chain may have in flight.
pub const MAX_FRAME_LATENCY: u32 = 2;

/// How presented images are paced.
#[derive(Clone, Copy, Debug, PartialEq, Eq, Structural)]
pub enum PresentMode {
    /// First in, first out: paced by the display, no tearing, no dropped frames.
    Fifo,
    Immediate,
    Mailbox,
}

/// The parts of the presentation chain's configuration that the lifecycle
/// decides. The pixel format and alpha mode are picked once, by
/// [`pick_surface_formats`], and do not change.
#[derive(Clone, Copy, Debug, PartialEq, Eq, Structural)]
pub struct SurfaceConfig {
    pub width: u32,
    pub height: u32,
    pub present_mode: PresentMode,
    pub max_frame_latency: u32,
}

/// Failures of the one-time setup; each ends the process.
#[derive(Clone, Copy, Debug, PartialEq, Eq, Structural)]
pub enum SetupError {
    SurfaceCreationFailed,
    NoAdapter,
    DeviceCreationFailed,
    NoSurfaceFormat,
    NoAlphaMode,
}

/// Why acquiring the next presentable image failed.
#[derive(Clone, Copy, Debug, PartialEq, Eq, Structural)]
pub enum AcquireError {
    /// No image became available in time.
    Timeout,
    /// The chain no longer matches the window and must be reconfigured.
    Outdated,
    /// The surface is gone for good.
    Lost,
    OutOfMemory,
}

/// How a rendered frame ended.
#[derive(Clone, Copy, Debug, PartialEq, Eq, Structural)]
pub enum FrameOutcome {
    Presented,
    Failed(AcquireError),
}

/// What the window system, or the caller's own work, reports.
#[derive(Clone, Copy, Debug, PartialEq, Eq, Structural)]
pub enum Event {
    /// The platform offers a renderable surface.
    Activate,
    /// Setup finished; the window's size in physical pixels.
    Initialized { width: u32, height: u32 },
    SetupFailed(SetupError),
    /// The window's new size in physical pixels.
    Resize { width: u32, height: u32 },
    RedrawRequested,
    FrameDone(FrameOutcome),
    CloseRequested,
}

/// What the caller is to do next.
#[derive(Clone, Copy, Debug, PartialEq, Eq, Structural)]
pub enum Action {
    Nothing,
    /// Create the window binding, graphics context, pipeline and vertex
    /// buffer, then report `Initialized` or `SetupFailed`.
    Initialize,
    /// Apply this configuration to the presentation chain.
    Configure(SurfaceConfig),
    /// Acquire an image, record and submit this plan, present, then report `FrameDone`.
    Render(FramePlan),
    /// Ask the window for another redraw.
    RequestRedraw,
    /// Stop the event loop.
    Exit,
    /// Report the setup failure and stop.
    Fail(SetupError),
}

/// Where the lifecycle stands. While active, `config` is the configuration
/// last applied to the chain, or `None` while the window has had no
/// non-zero size.
#[derive(Clone, Copy, Debug, PartialEq, Eq, Structural)]
pub enum Phase {
    Uninitialized,
    Active { config: Option<SurfaceConfig> },
    Closing,
}

/// The state machine, and whether it renders continuously or only on
/// explicit redraw requests.
#[derive(Clone, Copy, Debug, PartialEq, Eq, Structural)]
pub struct Lifecycle {
    pub phase: Phase,
    pub continuous: bool,
}

/// The configuration for a chain of `width` by `height` pixels.
pub open spec fn sized(width: u32, height: u32) -> SurfaceConfig {
    SurfaceConfig { width, height, present_mode: PresentMode::Fifo, max_frame_latency: MAX_FRAME_LATENCY }
}

/// A configuration that may be applied: both dimensions non-zero, FIFO
/// pacing, double buffering.
pub open spec fn config_valid(c: SurfaceConfig) -> bool {
    &&& c.width > 0
    &&& c.height > 0
    &&& c.present_mode == PresentMode::Fifo
    &&& c.max_frame_latency == MAX_FRAME_LATENCY
}

/// Every stored configuration is valid.
pub open spec fn lifecycle_wf(s: Lifecycle) -> bool {
    s.phase matches Phase::Active { config: Some(c) } ==> config_valid(c)
}

pub open spec fn with_phase(s: Lifecycle, p: Phase) -> Lifecycle {
    Lifecycle { phase: p, continuous: s.continuous }
}

/// The transition from the uninitialised state.
pub open spec fn next_uninitialized(s: Lifecycle, e: Event) -> (Lifecycle, Action) {
    match e {
        Event::Activate => (s, Action::Initialize),
        Event::Initialized { width, height } => if width > 0 && height > 0 {
            (
                with_phase(s, Phase::Active { config: Some(sized(width, height)) }),
                Action::Configure(sized(width, height)),
            )
        } else {
            (with_phase(s, Phase::Active { config: None }), Action::Nothing)
        },
        Event::SetupFailed(err) => (with_phase(s, Phase::Closing), Action::Fail(err)),
        Event::CloseRequested => (with_phase(s, Phase::Closing), Action::Exit),
        _ => (s, Action::Nothing),
    }
}

/// The transition from the active state with `config` stored.
pub open spec fn next_active(s: Lifecycle, config: Option<SurfaceConfig>, e: Event) -> (
    Lifecycle,
    Action,
) {
    match e {
        Event::Resize { width, height } => if width > 0 && height > 0 {
            (
                with_phase(s, Phase::Active { config: Some(sized(width, height)) }),
                Action::Configure(sized(width, height)),
            )
        } else {
            (s, Action::Nothing)
        },
        Event::RedrawRequested => if config is Some {
            (s, Action::Render(quad_frame()))
        } else {
            (s, Action::Nothing)
        },
        Event::FrameDone(FrameOutcome::Presented) => if s.continuous {
            (s, Action::RequestRedraw)
        } else {
            (s, Action::Nothing)
        },
        Event::FrameDone(FrameOutcome::Failed(err)) => match err {
            AcquireError::Outdated => match config {
                Some(c) => (s, Action::Configure(c)),
                None => (s, Action::Nothing),
            },
            AcquireError::Timeout => (s, Action::Nothing),
            _ => (with_phase(s, Phase::Closing), Action::Exit),
        },
        Event::CloseRequested => (with_phase(s, Phase::Closing), Action::Exit),
        _ => (s, Action::Nothing),
    }
}

/// The next state and the action for event `e` in state `s`.
pub open spec fn next(s: Lifecycle, e: Event) -> (Lifecycle, Action) {
    match s.phase {
        Phase::Uninitialized => next_uninitialized(s, e),
        Phase::Active { config } => next_active(s, config, e),
        Phase::Closing => (s, Action::Nothing),
    }
}

/// The configuration for a chain of `width` by `height` pixels.
pub fn sized_config(width: u32, height: u32) -> (r: SurfaceConfig)
    ensures
        r == sized(width, height),
{
    SurfaceConfig { width, height, present_mode: PresentMode::Fifo, max_frame_latency: MAX_FRAME_LATENCY }
}

impl Lifecycle {
    /// A lifecycle that has not been activated yet.
    pub fn new(continuous: bool) -> (r: Lifecycle)
        ensures
            r.phase == Phase::Uninitialized,
            r.continuous == continuous,
            lifecycle_wf(r),
    {
        Lifecycle { phase: Phase::Uninitialized, continuous }
    }

    /// Whether the lifecycle has stopped.
    pub fn is_closing(&self) -> (r: bool)
        ensures
            r == (self.phase == Phase::Closing),
    {
        match self.phase {
            Phase::Closing => true,
            _ => false,
        }
    }

    /// The configuration last applied to the chain, if any.
    pub fn config(&self) -> (r: Option<SurfaceConfig>)
        ensures
            r == (match self.phase {
                Phase::Active { config } => config,
                _ => None,
            }),
    {
        match self.phase {
            Phase::Active { config } => config,
            _ => None,
        }
    }

    /// Takes one event, moves to the next state and returns what the caller
    /// is to do.
    pub fn step(&mut self, e: Event) -> (r: Action)
        ensures
            (*final(self), r) == next(*old(self), e),
            lifecycle_wf(*old(self)) ==> lifecycle_wf(*final(self)),
    {
        let s = *self;
        let closing = Lifecycle { phase: Phase::Closing, continuous: s.continuous };
        match s.phase {
            Phase::Closing => Action::Nothing,
            Phase::Uninitialized => match e {
                Event::Activate => Action::Initialize,
                Event::Initialized { width, height } => {
                    if width > 0 && height > 0 {
                        let c = sized_config(width, height);
                        *self = Lifecycle { phase: Phase::Active { config: Some(c) }, continuous: s.continuous };
                        Action::Configure(c)
                    } else {
                        *self = Lifecycle { phase: Phase::Active { config: None }, continuous: s.continuous };
                        Action::Nothing
                    }
                },
                Event::SetupFailed(err) => {
                    *self = closing;
                    Action::Fail(err)
                },
                Event::CloseRequested => {
                    *self = closing;
                    Action::Exit
                },
                _ => Action::Nothing,
            },
            Phase::Active { config } => match e {
                Event::Resize { width, height } => {
                    if width > 0 && height > 0 {
                        let c = sized_config(width, height);
                        *self = Lifecycle { phase: Phase::Active { config: Some(c) }, continuous: s.continuous };
                        Action::Configure(c)
                    } else {
                        Action::Nothing
                    }
                },
                Event::RedrawRequested => {
                    if config.is_some() {
                        Action::Render(frame_plan())
                    } else {
                        Action::Nothing
                    }
                },
                Event::FrameDone(FrameOutcome::Presented) => {
                    if s.continuous {
                        Action::RequestRedraw
                    } else {
                        Action::Nothing
                    }
                },
                Event::FrameDone(FrameOutcome::Failed(err)) => match err {
                    AcquireError::Outdated => match config {
                        Some(c) => Action::Configure(c),
                        None => Action::Nothing,
                    },
                    AcquireError::Timeout => Action::Nothing,
                    _ => {
                        *self = closing;
                        Action::Exit
                    },
                },
                Event::CloseRequested => {
                    *self = closing;
                    Action::Exit
                },
                _ => Action::Nothing,
            },
        }
    }
}

/// The pixel format and alpha mode of the chain: the first of each that the
/// surface supports.
pub fn pick_surface_formats<F: Copy, A: Copy>(formats: &Vec<F>, alpha_modes: &Vec<A>) -> (r: Result<
    (F, A),
    SetupError,
>)
    ensures
        formats@.len() == 0 ==> r == Err::<(F, A), SetupError>(SetupError::NoSurfaceFormat),
        formats@.len() > 0 && alpha_modes@.len() == 0 ==> r == Err::<(F, A), SetupError>(
            SetupError::NoAlphaMode,
        ),
        formats@.len() > 0 && alpha_modes@.len() > 0 ==> r == Ok::<(F, A), SetupError>(
            (formats@[0], alpha_modes@[0]),
        ),
{
    if formats.len() == 0 {
        Err(SetupError::NoSurfaceFormat)
    } else if alpha_modes.len() == 0 {
        Err(SetupError::NoAlphaMode)
    } else {
        Ok((formats[0], alpha_modes[0]))
    }
}

/// A resize to a non-zero size while active stores exactly that size and
/// reconfigures the chain with it; a resize with a zero dimension changes
/// nothing and reconfigures nothing.
pub proof fn lemma_resize(s: Lifecycle, width: u32, height: u32)
    requires
        s.phase is Active,
    ensures
        width > 0 && height > 0 ==> ({
            let (t, a) = next(s, Event::Resize { width, height });
            &&& t.phase matches Phase::Active { config: Some(c) }
            &&& c.width == width
            &&& c.height == height
            &&& a == Action::Configure(c)
        }),
        width == 0 || height == 0 ==> next(s, Event::Resize { width, height }) == (s, Action::Nothing),
{
}

/// No configuration with a zero dimension, or other than FIFO pacing with
/// double buffering, is ever handed to the chain, and every stored
/// configuration stays valid.
pub proof fn lemma_configure_valid(s: Lifecycle, e: Event)
    requires
        lifecycle_wf(s),
    ensures
        next(s, e).1 matches Action::Configure(c) ==> config_valid(c),
        lifecycle_wf(next(s, e).0),
{
}

/// Every frame clears to the background colour and draws all six vertices
/// once, whatever the state, the window size or the frame's index.
pub proof fn lemma_every_frame_draws_quad(s: Lifecycle, e: Event)
    ensures
        next(s, e).1 matches Action::Render(p) ==> {
            &&& p == quad_frame()
            &&& p.clear == background()
            &&& p.vertex_count == 6
            &&& p.instance_count == 1
        },
{
}

/// The draw covers the vertex buffer exactly: six records of the layout's
/// stride, and the buffer's length is six times the record size.
pub proof fn lemma_draw_covers_buffer(big_endian: bool)
    ensures
        quad().len() == VERTEX_COUNT,
        quad_frame().vertex_count == VERTEX_COUNT,
        word_bytes(mesh_words(quad()), big_endian).len() == VERTEX_COUNT * VERTEX_SIZE,
        VERTEX_SIZE == 20,
{
    crate::vertex::lemma_mesh_words_len(quad());
}

/// Activating an active lifecycle again changes nothing and asks for no new
/// setup.
pub proof fn lemma_activate_idempotent(s: Lifecycle)
    requires
        s.phase is Active,
    ensures
        next(s, Event::Activate) == (s, Action::Nothing),
{
}

/// A close request moves any running lifecycle to closing and stops the
/// loop; once closing, no event has any effect, so no frame is rendered.
pub proof fn lemma_close_is_final(s: Lifecycle, e: Event)
    ensures
        s.phase != Phase::Closing ==> next(s, Event::CloseRequested) == (
            with_phase(s, Phase::Closing),
            Action::Exit,
        ),
        s.phase == Phase::Closing ==> next(s, e) == (s, Action::Nothing),
{
}

/// An outdated chain is reconfigured with the last applied configuration;
/// the failed frame is dropped and the lifecycle stays active.
pub proof fn lemma_outdated_reconfigures(s: Lifecycle, c: SurfaceConfig)
    requires
        s.phase == (Phase::Active { config: Some(c) }),
    ensures
        next(s, Event::FrameDone(FrameOutcome::Failed(AcquireError::Outdated))) == (
            s,
            Action::Configure(c),
        ),
{
}

} // verus!
