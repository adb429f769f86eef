//! The render loop as a state machine: what each event does to the sample
//! count, and what the program around the loop has to do next.

use crate::bytes::is_memory_image;
use crate::camera::CameraUniforms;
use crate::render::{lemma_frames_are_counted, PathTracer, Uniforms, UNIFORM_BLOCK_SIZE};
use vstd::prelude::*;

verus! {

/// The keys the loop reacts to, by their position on the keyboard.
#[derive(Clone, Copy, Debug, PartialEq, Eq)]
pub enum Key {
    Z,
    X,
    W,
    S,
    A,
    D,
    /// Any other key.
    Other,
}

/// What the window system reports to the loop.
#[derive(Clone, Copy, Debug, PartialEq, Eq)]
pub enum LoopEvent {
    /// The window is to be closed.
    CloseRequested,
    /// A frame is due.  `camera` is the camera as it stands now.
    RedrawRequested { camera: CameraUniforms },
    /// A key went down or up.
    KeyboardInput(Key),
    /// The wheel moved.  `delta` is the zoom amount it stands for, as the bit
    /// pattern of a single-precision value.
    MouseWheel { delta: u32 },
    /// The captured pointer moved.  `dx` and `dy` are the yaw angle and the
    /// pitch offset it stands for, as bit patterns of single-precision values.
    MouseMotion { dx: u32, dy: u32 },
    /// Anything else.
    Other,
}

/// The bit pattern of 0.1, the amount one press of a camera key stands for.
pub const KEY_STEP_BITS: u32 = 0x3dcc_cccd;

/// The bit pattern of -0.1, one key step the other way.
pub const KEY_STEP_BACK_BITS: u32 = 0xbdcc_cccd;

/// A change of the camera that an event asks for.  Every amount is the bit
/// pattern of a single-precision value.
#[derive(Clone, Copy, Debug, PartialEq, Eq)]
pub enum CameraOp {
    /// Zoom by `delta`; a positive amount narrows the field of view.
    Zoom { delta: u32 },
    /// Move eye and target by `delta` along the view direction.
    MoveAlongW { delta: u32 },
    /// Move eye and target by `delta` along the right axis.
    MoveAlongU { delta: u32 },
    /// Yaw by `dx`, then raise the view vector by `dy`.
    Rotate { dx: u32, dy: u32 },
}

/// What the program around the loop has to do after an event.
#[derive(Clone, Debug, PartialEq, Eq)]
pub enum Action {
    /// Nothing.
    Idle,
    /// Leave the loop; no further frame is submitted.
    Exit,
    /// Upload the uniform block, run the kernel and the display pass, present
    /// the frame and ask for the next one.
    Render { block: Vec<u8> },
    /// Apply the operation to the camera.  The accumulated samples have been
    /// discarded already.
    Mutate(CameraOp),
}

/// The two states of the loop.
#[derive(Clone, Copy, Debug, PartialEq, Eq)]
pub enum LoopPhase {
    /// Frames are rendered and input is handled.
    Running,
    /// A close request was seen; nothing happens any more.
    Terminating,
}

/// The loop as the contracts see it: its phase and the uniform block.
pub struct LoopState {
    pub phase: LoopPhase,
    pub uniforms: Uniforms,
}

/// The camera operation that `event` asks for, if it asks for one.
pub open spec fn camera_op(event: LoopEvent) -> Option<CameraOp> {
    match event {
        LoopEvent::KeyboardInput(Key::Z) => Some(CameraOp::Zoom { delta: KEY_STEP_BITS }),
        LoopEvent::KeyboardInput(Key::X) => Some(CameraOp::Zoom { delta: KEY_STEP_BACK_BITS }),
        LoopEvent::KeyboardInput(Key::W) => Some(CameraOp::MoveAlongW { delta: KEY_STEP_BITS }),
        LoopEvent::KeyboardInput(Key::S) => Some(
            CameraOp::MoveAlongW { delta: KEY_STEP_BACK_BITS },
        ),
        LoopEvent::KeyboardInput(Key::A) => Some(CameraOp::MoveAlongU { delta: KEY_STEP_BITS }),
        LoopEvent::KeyboardInput(Key::D) => Some(
            CameraOp::MoveAlongU { delta: KEY_STEP_BACK_BITS },
        ),
        LoopEvent::MouseWheel { delta } => Some(CameraOp::Zoom { delta }),
        LoopEvent::MouseMotion { dx, dy } => Some(CameraOp::Rotate { dx, dy }),
        _ => None,
    }
}

/// The state after `event`.  A close request ends the loop; a frame is
/// counted and takes the camera of its event; an event that changes the
/// camera discards the samples; nothing else changes anything, and once the
/// loop is terminating nothing changes at all.
pub open spec fn next_state(state: LoopState, event: LoopEvent) -> LoopState {
    match state.phase {
        LoopPhase::Terminating => state,
        LoopPhase::Running => match event {
            LoopEvent::CloseRequested => LoopState { phase: LoopPhase::Terminating, ..state },
            LoopEvent::RedrawRequested { camera } => LoopState {
                uniforms: state.uniforms.after_frame(camera),
                ..state
            },
            _ => if camera_op(event) is Some {
                LoopState { uniforms: state.uniforms.after_reset(), ..state }
            } else {
                state
            },
        },
    }
}

/// `action` is what the loop in `state` answers to `event`.
pub open spec fn answers(state: LoopState, event: LoopEvent, action: Action) -> bool {
    match state.phase {
        LoopPhase::Terminating => action is Idle,
        LoopPhase::Running => match event {
            LoopEvent::CloseRequested => action is Exit,
            LoopEvent::RedrawRequested { camera } => {
                &&& action matches Action::Render { block }
                &&& block@.len() == UNIFORM_BLOCK_SIZE
                &&& is_memory_image(block@, state.uniforms.after_frame(camera).words())
            },
            _ => match camera_op(event) {
                Some(op) => action == Action::Mutate(op),
                None => action is Idle,
            },
        },
    }
}

/// The state after the events of `events`, in order.
pub open spec fn run(state: LoopState, events: Seq<LoopEvent>) -> LoopState
    decreases events.len(),
{
    if events.len() == 0 {
        state
    } else {
        next_state(run(state, events.drop_last()), events.last())
    }
}

/// One redraw event for each camera of `cameras`, in order.
pub open spec fn redraws(cameras: Seq<CameraUniforms>) -> Seq<LoopEvent> {
    Seq::new(cameras.len(), |i: int| LoopEvent::RedrawRequested { camera: cameras[i] })
}

/// The render loop: its phase and the renderer's host-side state.
#[derive(Clone, Copy, Debug, PartialEq, Eq)]
pub struct RenderLoop {
    phase: LoopPhase,
    tracer: PathTracer,
}

impl View for RenderLoop {
    type V = LoopState;

    closed spec fn view(&self) -> LoopState {
        LoopState { phase: self.phase, uniforms: self.tracer@ }
    }
}

impl RenderLoop {
    /// A running loop around `tracer`.
    pub fn new(tracer: PathTracer) -> (render_loop: Self)
        ensures
            render_loop@.phase is Running,
            render_loop@.uniforms == tracer@,
    {
        RenderLoop { phase: LoopPhase::Running, tracer }
    }

    /// The phase the loop is in.
    pub fn phase(&self) -> (phase: LoopPhase)
        ensures
            phase == self@.phase,
    {
        self.phase
    }

    /// The renderer's host-side state.
    pub fn tracer(&self) -> (tracer: PathTracer)
        ensures
            tracer@ == self@.uniforms,
    {
        self.tracer
    }

    /// Handles one event and says what is to be done.  A frame can only be
    /// counted while the sample count is below `u32::MAX`.
    pub fn handle_event(&mut self, event: LoopEvent) -> (action: Action)
        requires
            old(self)@.phase is Running && event is RedrawRequested
                ==> old(self)@.uniforms.frame_count < u32::MAX,
        ensures
            final(self)@ == next_state(old(self)@, event),
            answers(old(self)@, event, action),
            old(self)@.phase is Running && camera_op(event) is Some
                ==> final(self)@.uniforms.frame_count == 0,
            action is Render ==> final(self)@.uniforms.frame_count >= 1,
    {
        match self.phase {
            LoopPhase::Terminating => Action::Idle,
            LoopPhase::Running => match event {
                LoopEvent::CloseRequested => {
                    self.phase = LoopPhase::Terminating;
                    Action::Exit
                },
                LoopEvent::RedrawRequested { camera } => {
                    let block = self.tracer.render_frame(&camera);
                    Action::Render { block }
                },
                LoopEvent::KeyboardInput(key) => match key {
                    Key::Z => self.mutate(CameraOp::Zoom { delta: KEY_STEP_BITS }),
                    Key::X => self.mutate(CameraOp::Zoom { delta: KEY_STEP_BACK_BITS }),
                    Key::W => self.mutate(CameraOp::MoveAlongW { delta: KEY_STEP_BITS }),
                    Key::S => self.mutate(CameraOp::MoveAlongW { delta: KEY_STEP_BACK_BITS }),
                    Key::A => self.mutate(CameraOp::MoveAlongU { delta: KEY_STEP_BITS }),
                    Key::D => self.mutate(CameraOp::MoveAlongU { delta: KEY_STEP_BACK_BITS }),
                    Key::Other => Action::Idle,
                },
                LoopEvent::MouseWheel { delta } => self.mutate(CameraOp::Zoom { delta }),
                LoopEvent::MouseMotion { dx, dy } => self.mutate(CameraOp::Rotate { dx, dy }),
                LoopEvent::Other => Action::Idle,
            },
        }
    }

    /// Discards the samples and hands the operation on.
    fn mutate(&mut self, op: CameraOp) -> (action: Action)
        ensures
            final(self)@ == (LoopState { uniforms: old(self)@.uniforms.after_reset(), ..old(self)@ }),
            action == Action::Mutate(op),
    {
        self.tracer.reset_samples();
        Action::Mutate(op)
    }
}

/// Once the loop is terminating, no event changes its state or is answered
/// with anything but `Idle`: no frame is rendered after a close request.
pub proof fn lemma_terminating_is_final(state: LoopState, events: Seq<LoopEvent>)
    requires
        state.phase is Terminating,
    ensures
        run(state, events) == state,
        forall|event: LoopEvent, action: Action| #[trigger]
            answers(state, event, action) ==> action is Idle,
    decreases events.len(),
{
    if events.len() > 0 {
        lemma_terminating_is_final(state, events.drop_last());
    }
}

/// The output size is fixed for the session: no sequence of events changes
/// the width or the height in the uniform block.
pub proof fn lemma_output_size_is_fixed(state: LoopState, events: Seq<LoopEvent>)
    ensures
        run(state, events).uniforms.width == state.uniforms.width,
        run(state, events).uniforms.height == state.uniforms.height,
    decreases events.len(),
{
    if events.len() > 0 {
        lemma_output_size_is_fixed(state, events.drop_last());
    }
}

/// A running loop that sees nothing but redraw events renders one frame for
/// each and stays running.
pub proof fn lemma_redraws_are_frames(state: LoopState, cameras: Seq<CameraUniforms>)
    requires
        state.phase is Running,
    ensures
        run(state, redraws(cameras)) == (LoopState {
            uniforms: state.uniforms.after_frames(cameras),
            ..state
        }),
    decreases cameras.len(),
{
    if cameras.len() > 0 {
        lemma_redraws_are_frames(state, cameras.drop_last());
        assert(redraws(cameras).drop_last() =~= redraws(cameras.drop_last()));
    }
}

/// However the loop got where it is, right after an event that changes the
/// camera the sample count is zero, and `n` frames later it is `n`, provided
/// the loop is still running.
pub proof fn lemma_count_after_camera_change(
    state: LoopState,
    event: LoopEvent,
    cameras: Seq<CameraUniforms>,
)
    requires
        state.phase is Running,
        camera_op(event) is Some,
        cameras.len() <= u32::MAX,
    ensures
        next_state(state, event).uniforms.frame_count == 0,
        run(next_state(state, event), redraws(cameras)).phase is Running,
        run(next_state(state, event), redraws(cameras)).uniforms.frame_count == cameras.len(),
{
    lemma_redraws_are_frames(next_state(state, event), cameras);
    lemma_frames_are_counted(next_state(state, event).uniforms, cameras);
}

} // verus!
