use crate::failure::Failure;
use crate::setup::SetupStage;
use crate::surface::SurfaceSettings;
use vstd::prelude::*;

verus! {

/// A color with one byte per channel.
#[derive(Clone, Copy, Debug, PartialEq, Eq, Structural)]
pub struct Color {
    pub r: u8,
    pub g: u8,
    pub b: u8,
    pub a: u8,
}

impl Color {
    pub open spec fn spec_transparent_black() -> Color {
        Color { r: 0, g: 0, b: 0, a: 0 }
    }

    /// Black with zero alpha: what each frame is cleared to.
    #[verifier::when_used_as_spec(spec_transparent_black)]
    pub fn transparent_black() -> (r: Color)
        ensures
            r == Color::spec_transparent_black(),
    {
        Color { r: 0, g: 0, b: 0, a: 0 }
    }
}

/// One frame: a single render pass that clears the frame to `clear`, binds
/// the render pipeline and draws vertices `0..vertex_count` of instances
/// `0..instance_count`; its commands are submitted and the frame presented.
#[derive(Clone, Copy, Debug, PartialEq, Eq, Structural)]
pub struct DrawPlan {
    pub vertex_count: u32,
    pub instance_count: u32,
    pub clear: Color,
}

/// The frame drawn for each redraw: every vertex asked for, one instance,
/// cleared to transparent black.
pub open spec fn frame_plan(vertex_count: u32) -> DrawPlan {
    DrawPlan { vertex_count, instance_count: 1, clear: Color::spec_transparent_black() }
}

/// A window event, as far as the frame loop tells events apart.
#[derive(Clone, Copy, Debug, PartialEq, Eq, Structural)]
pub enum LoopEvent {
    /// The window's drawable area now has this size.
    Resized { width: u32, height: u32 },
    /// The window asks to be drawn.
    RedrawRequested,
    /// Drawing a frame failed: the surface gave no frame to draw into.
    FrameUnavailable,
    /// The window asks to be closed.
    CloseRequested,
    /// Anything else.
    Other,
}

/// What the driver of the loop does for one event.
#[derive(Clone, Copy, Debug, PartialEq, Eq)]
pub enum LoopAction {
    /// Nothing; wait for the next event.
    Wait,
    /// Apply this configuration to the surface.
    Reconfigure(SurfaceSettings),
    /// Take the next frame from the surface and draw it as planned.
    Draw(DrawPlan),
    /// Stop the loop.
    Exit,
    /// Stop the process with this failure.
    Abort(Failure),
}

/// Whether the loop still handles events.
#[derive(Clone, Copy, Debug, PartialEq, Eq, Structural)]
pub enum Phase {
    Running,
    Closed,
    Failed(Failure),
}

/// Everything that the frame loop decides by: the surface configuration in
/// force, the vertex count of each draw, and the phase.
#[derive(Clone, Copy, Debug, PartialEq, Eq)]
pub struct LoopState {
    pub config: SurfaceSettings,
    pub vertex_count: u32,
    pub phase: Phase,
}

/// How the loop answers one event from state `s`: the next state and the
/// action. Once the loop has closed or failed, it ignores every event.
pub open spec fn step(s: LoopState, e: LoopEvent) -> (LoopState, LoopAction) {
    if !(s.phase is Running) {
        (s, LoopAction::Wait)
    } else {
        match e {
            LoopEvent::Resized { width, height } => {
                let config = SurfaceSettings { width, height, ..s.config };
                (LoopState { config, ..s }, LoopAction::Reconfigure(config))
            },
            LoopEvent::RedrawRequested => (s, LoopAction::Draw(frame_plan(s.vertex_count))),
            LoopEvent::FrameUnavailable => (
                LoopState { phase: Phase::Failed(Failure::FrameUnavailable), ..s },
                LoopAction::Abort(Failure::FrameUnavailable),
            ),
            LoopEvent::CloseRequested => (LoopState { phase: Phase::Closed, ..s }, LoopAction::Exit),
            LoopEvent::Other => (s, LoopAction::Wait),
        }
    }
}

/// The state after `events`, handled in order from `s`, and the action for
/// each of them.
pub open spec fn run(s: LoopState, events: Seq<LoopEvent>) -> (LoopState, Seq<LoopAction>)
    decreases events.len(),
{
    if events.len() == 0 {
        (s, Seq::empty())
    } else {
        let first = step(s, events[0]);
        let rest = run(first.0, events.drop_first());
        (rest.0, seq![first.1] + rest.1)
    }
}


/// A resize to `width` by `height` reconfigures the surface to exactly that
/// size, and the redraw that follows draws a frame under that configuration.
pub proof fn lemma_resize_then_redraw(s: LoopState, width: u32, height: u32)
    requires
        s.phase is Running,
    ensures
        ({
            let (s1, a1) = step(s, LoopEvent::Resized { width, height });
            let (s2, a2) = step(s1, LoopEvent::RedrawRequested);
            &&& s1.config.width == width
            &&& s1.config.height == height
            &&& s1.config.format == s.config.format
            &&& s1.config.present_mode == s.config.present_mode
            &&& a1 == LoopAction::Reconfigure(s1.config)
            &&& a2 == LoopAction::Draw(frame_plan(s.vertex_count))
            &&& s2 == s1
        }),
{
}

/// Two redraws in a row each draw a full frame, and neither changes the
/// surface configuration or anything else of the loop.
pub proof fn lemma_consecutive_redraws(s: LoopState)
    requires
        s.phase is Running,
    ensures
        ({
            let (s1, a1) = step(s, LoopEvent::RedrawRequested);
            let (s2, a2) = step(s1, LoopEvent::RedrawRequested);
            &&& a1 == LoopAction::Draw(frame_plan(s.vertex_count))
            &&& a2 == a1
            &&& s1 == s
            &&& s2 == s
        }),
{
}

/// A loop that has closed or failed stays as it is and answers every later
/// event with `Wait`.
pub proof fn lemma_stopped_loop_ignores_events(s: LoopState, events: Seq<LoopEvent>)
    requires
        !(s.phase is Running),
    ensures
        run(s, events).0 == s,
        run(s, events).1.len() == events.len(),
        forall|i: int| 0 <= i < events.len() ==> run(s, events).1[i] == LoopAction::Wait,
    decreases events.len(),
{
    if events.len() > 0 {
        lemma_stopped_loop_ignores_events(s, events.drop_first());
        let rest = run(s, events.drop_first()).1;
        assert forall|i: int| 0 <= i < events.len() implies run(s, events).1[i]
            == LoopAction::Wait by {
            if i > 0 {
                assert(run(s, events).1[i] == rest[i - 1]);
            }
        }
    }
}

/// A close request stops the loop: it answers with `Exit`, and no later
/// event, a redraw or a resize among them, is acted upon or changes the loop.
pub proof fn lemma_close_is_final(s: LoopState, later: Seq<LoopEvent>)
    requires
        s.phase is Running,
    ensures
        ({
            let (closed, action) = step(s, LoopEvent::CloseRequested);
            let (end, actions) = run(s, seq![LoopEvent::CloseRequested] + later);
            &&& action == LoopAction::Exit
            &&& closed.phase == Phase::Closed
            &&& closed.config == s.config
            &&& end == closed
            &&& actions.len() == later.len() + 1
            &&& actions[0] == LoopAction::Exit
            &&& forall|i: int| 1 <= i <= later.len() ==> actions[i] == LoopAction::Wait
        }),
{
    let events = seq![LoopEvent::CloseRequested] + later;
    let closed = step(s, LoopEvent::CloseRequested).0;
    assert(events.drop_first() =~= later);
    lemma_stopped_loop_ignores_events(closed, later);
    let actions = run(s, events).1;
    assert forall|i: int| 1 <= i <= later.len() implies actions[i] == LoopAction::Wait by {
        assert(actions[i] == run(closed, later).1[i - 1]);
    }
}

/// The frame loop: it owns the decisions of the renderer once setup is done.
/// Whoever drives it hands it each window event and carries out the action
/// it returns.
pub struct FrameLoop {
    state: LoopState,
}

impl View for FrameLoop {
    type V = LoopState;

    closed spec fn view(&self) -> LoopState {
        self.state
    }
}

impl FrameLoop {
    /// A running loop, drawing `vertex_count` vertices per frame into a
    /// surface configured as `config`.
    pub fn new(config: SurfaceSettings, vertex_count: u32) -> (r: FrameLoop)
        ensures
            r@ == (LoopState { config, vertex_count, phase: Phase::Running }),
    {
        FrameLoop { state: LoopState { config, vertex_count, phase: Phase::Running } }
    }

    /// The loop that follows setup: there is one only when setup is ready,
    /// so a failed setup never reaches a draw.
    pub fn start(stage: SetupStage, config: SurfaceSettings, vertex_count: u32) -> (r: Option<
        FrameLoop,
    >)
        ensures
            r is Some <==> stage == SetupStage::Ready,
            r matches Some(l) ==> l@ == (LoopState { config, vertex_count, phase: Phase::Running }),
    {
        match stage {
            SetupStage::Ready => Some(FrameLoop::new(config, vertex_count)),
            _ => None,
        }
    }

    /// Handles one event: updates the loop and returns the action to carry
    /// out.
    pub fn handle(&mut self, event: LoopEvent) -> (r: LoopAction)
        ensures
            (final(self)@, r) == step(old(self)@, event),
    {
        match self.state.phase {
            Phase::Running => {},
            _ => {
                return LoopAction::Wait;
            },
        }
        match event {
            LoopEvent::Resized { width, height } => {
                self.state.config = self.state.config.resized(width, height);
                LoopAction::Reconfigure(self.state.config)
            },
            LoopEvent::RedrawRequested => LoopAction::Draw(
                DrawPlan {
                    vertex_count: self.state.vertex_count,
                    instance_count: 1,
                    clear: Color::transparent_black(),
                },
            ),
            LoopEvent::FrameUnavailable => {
                self.state.phase = Phase::Failed(Failure::FrameUnavailable);
                LoopAction::Abort(Failure::FrameUnavailable)
            },
            LoopEvent::CloseRequested => {
                self.state.phase = Phase::Closed;
                LoopAction::Exit
            },
            LoopEvent::Other => LoopAction::Wait,
        }
    }

    /// The surface configuration in force.
    pub fn config(&self) -> (r: SurfaceSettings)
        ensures
            r == self@.config,
    {
        self.state.config
    }

    /// The number of vertices drawn per frame.
    pub fn vertex_count(&self) -> (r: u32)
        ensures
            r == self@.vertex_count,
    {
        self.state.vertex_count
    }

    /// Whether the loop runs, has closed or has failed.
    pub fn phase(&self) -> (r: Phase)
        ensures
            r == self@.phase,
    {
        self.state.phase
    }
}

} // verus!
