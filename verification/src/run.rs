//! Decisions of the frame loop: what to do for each window event, and how a
//! lost swap chain is recovered.

use crate::vector::ONE;
use vstd::prelude::*;

verus! {

/// Nanoseconds between two wake-ups of the loop, and the shortest pause
/// between two redraw requests.
pub const TICK_NANOS: u64 = 10_000_000;

/// Yaw applied to the camera by one press of a turn key: 0.1 as a
/// single-precision bit pattern.
pub const TURN_STEP: u32 = 0x3dcc_cccd;

/// The same angle with its sign flipped: -0.1.
pub const TURN_STEP_BACK: u32 = 0xbdcc_cccd;

/// Degrees by which the first object turns each frame: 0.5.
pub const SPIN_DEGREES: u32 = 0x3f00_0000;

/// The keys the loop reacts to.
#[derive(Clone, Copy, Debug, PartialEq, Eq, Structural)]
pub enum Key {
    Escape,
    A,
    D,
    Other,
}

/// A window event, reduced to what the loop decides on.
#[derive(Clone, Copy, Debug, PartialEq, Eq, Structural)]
pub enum Event {
    MainEventsCleared,
    CloseRequested,
    KeyboardInput { key: Key, pressed: bool },
    RedrawRequested,
    Other,
}

/// When the loop wants to run again.
#[derive(Clone, Copy, Debug, PartialEq, Eq, Structural)]
pub enum ControlFlow {
    /// Sleep for at most this many nanoseconds.
    WaitFor { nanos: u64 },
    Exit,
}

/// One thing the caller has to carry out, in the order given.
#[derive(Clone, Copy, Debug, PartialEq, Eq, Structural)]
pub enum Command {
    /// Ask the window for a redraw.
    RequestRedraw,
    /// Let pending background tasks make progress.
    RunTasks,
    /// Rotate the camera by these angles (single-precision bit patterns).
    RotateCamera { yaw: u32, pitch: u32 },
    /// Report the time the last frame took.
    ReportFrameTime { millis: u64 },
    /// Acquire the frame to draw into; see [`FrameAcquisition`].
    AcquireFrame,
    /// Turn the object with this index about the axis `(x, y, z)` by
    /// `degrees` (single-precision bit patterns).
    RotateObject { index: u32, x: u32, y: u32, z: u32, degrees: u32 },
    /// Encode and submit the frame.
    Render,
}

/// What the loop answers to one event.
#[derive(Debug)]
pub struct Reaction {
    pub control_flow: ControlFlow,
    pub commands: Vec<Command>,
}

/// The clock state the loop keeps between events, in nanoseconds since the
/// loop started.
#[derive(Clone, Copy, Debug, PartialEq, Eq, Structural)]
pub struct EventLoop {
    pub last_update: u64,
    pub previous_frame: u64,
}

/// Time from `earlier` to `now`; zero if the clock reads earlier than that.
pub open spec fn elapsed(now: u64, earlier: u64) -> u64 {
    if now >= earlier {
        (now - earlier) as u64
    } else {
        0
    }
}

/// Whether a redraw is due at `now`.
pub open spec fn redraw_due(state: EventLoop, now: u64) -> bool {
    elapsed(now, state.last_update) > TICK_NANOS
}

/// The control flow chosen for an event: leave on a close request or a press
/// of Escape, otherwise wake up one tick later.
pub open spec fn control_flow_for(event: Event) -> ControlFlow {
    match event {
        Event::CloseRequested => ControlFlow::Exit,
        Event::KeyboardInput { key: Key::Escape, pressed: true } => ControlFlow::Exit,
        _ => ControlFlow::WaitFor { nanos: TICK_NANOS },
    }
}

/// The commands issued for an event that arrives at `now` in state `state`.
pub open spec fn commands_for(state: EventLoop, now: u64, event: Event) -> Seq<Command> {
    match event {
        Event::MainEventsCleared => if redraw_due(state, now) {
            seq![Command::RequestRedraw, Command::RunTasks]
        } else {
            seq![Command::RunTasks]
        },
        Event::KeyboardInput { key: Key::A, pressed: true } => seq![
            Command::RotateCamera { yaw: TURN_STEP, pitch: 0 },
        ],
        Event::KeyboardInput { key: Key::D, pressed: true } => seq![
            Command::RotateCamera { yaw: TURN_STEP_BACK, pitch: 0 },
        ],
        Event::RedrawRequested => seq![
            Command::ReportFrameTime {
                millis: (elapsed(now, state.previous_frame) / 1_000_000) as u64,
            },
            Command::AcquireFrame,
            Command::RotateObject { index: 0, x: ONE, y: ONE, z: 0, degrees: SPIN_DEGREES },
            Command::Render,
        ],
        _ => Seq::empty(),
    }
}

/// The clock state after an event that arrives at `now`.
pub open spec fn state_after(state: EventLoop, now: u64, event: Event) -> EventLoop {
    match event {
        Event::MainEventsCleared => if redraw_due(state, now) {
            EventLoop { last_update: now, previous_frame: state.previous_frame }
        } else {
            state
        },
        Event::RedrawRequested => EventLoop { last_update: state.last_update, previous_frame: now },
        _ => state,
    }
}

impl EventLoop {
    /// A loop whose clocks both start at `now`.
    pub fn new(now: u64) -> (state: EventLoop)
        ensures
            state == (EventLoop { last_update: now, previous_frame: now }),
    {
        EventLoop { last_update: now, previous_frame: now }
    }

    /// Handles one event that arrives at `now`: updates the clocks and tells
    /// the caller what to do and when to come back.
    pub fn step(&mut self, now: u64, event: Event) -> (reaction: Reaction)
        ensures
            *final(self) == state_after(*old(self), now, event),
            reaction.control_flow == control_flow_for(event),
            reaction.commands@ == commands_for(*old(self), now, event),
    {
        let mut commands: Vec<Command> = Vec::new();
        let mut control_flow = ControlFlow::WaitFor { nanos: TICK_NANOS };
        match event {
            Event::MainEventsCleared => {
                if since(now, self.last_update) > TICK_NANOS {
                    commands.push(Command::RequestRedraw);
                    self.last_update = now;
                }
                commands.push(Command::RunTasks);
            },
            Event::CloseRequested => {
                control_flow = ControlFlow::Exit;
            },
            Event::KeyboardInput { key, pressed } => {
                if pressed {
                    match key {
                        Key::Escape => {
                            control_flow = ControlFlow::Exit;
                        },
                        Key::A => {
                            commands.push(Command::RotateCamera { yaw: TURN_STEP, pitch: 0 });
                        },
                        Key::D => {
                            commands.push(Command::RotateCamera { yaw: TURN_STEP_BACK, pitch: 0 });
                        },
                        Key::Other => {},
                    }
                }
            },
            Event::RedrawRequested => {
                let millis: u64 = since(now, self.previous_frame) / 1_000_000;
                commands.push(Command::ReportFrameTime { millis });
                commands.push(Command::AcquireFrame);
                commands.push(
                    Command::RotateObject { index: 0, x: ONE, y: ONE, z: 0, degrees: SPIN_DEGREES },
                );
                commands.push(Command::Render);
                self.previous_frame = now;
            },
            Event::Other => {},
        }
        Reaction { control_flow, commands }
    }
}

/// Time from `earlier` to `now`, clamped at zero.
pub fn since(now: u64, earlier: u64) -> (nanos: u64)
    ensures
        nanos == elapsed(now, earlier),
{
    if now >= earlier {
        now - earlier
    } else {
        0
    }
}

/// What to do after one attempt to acquire the frame.
#[derive(Clone, Copy, Debug, PartialEq, Eq, Structural)]
pub enum FrameStep {
    /// The frame is there: draw into it.
    Draw,
    /// The surface was lost or is outdated: build the swap chain anew and
    /// try once more.
    RecreateAndRetry,
    /// The retry failed as well: give up.
    Abort,
}

/// Recovery state of one frame: whether the swap chain was already built anew
/// for it.
#[derive(Clone, Copy, Debug, PartialEq, Eq, Structural)]
pub struct FrameAcquisition {
    pub recreated: bool,
}

/// The step that follows an attempt with result `acquired`.
pub open spec fn step_after(state: FrameAcquisition, acquired: bool) -> FrameStep {
    if acquired {
        FrameStep::Draw
    } else if state.recreated {
        FrameStep::Abort
    } else {
        FrameStep::RecreateAndRetry
    }
}

/// The steps taken for a frame whose successive attempts end as `results`
/// says, up to the first step that ends the frame. Attempts that were never
/// made (`results` too short) leave the frame unfinished.
pub open spec fn frame_steps(state: FrameAcquisition, results: Seq<bool>) -> Seq<FrameStep>
    decreases results.len(),
{
    if results.len() == 0 {
        Seq::empty()
    } else {
        let step = step_after(state, results[0]);
        if step == FrameStep::RecreateAndRetry {
            seq![step] + frame_steps(FrameAcquisition { recreated: true }, results.drop_first())
        } else {
            seq![step]
        }
    }
}

impl FrameAcquisition {
    /// The state at the start of a frame.
    pub fn new() -> (state: FrameAcquisition)
        ensures
            !state.recreated,
    {
        FrameAcquisition { recreated: false }
    }

    /// Takes the result of one attempt to acquire the frame and says how to
    /// go on. A failure is answered by one rebuild of the swap chain; a
    /// failure after that rebuild ends the frame.
    pub fn on_result(&mut self, acquired: bool) -> (step: FrameStep)
        ensures
            step == step_after(*old(self), acquired),
            final(self).recreated == (old(self).recreated || !acquired),
    {
        if acquired {
            FrameStep::Draw
        } else if self.recreated {
            FrameStep::Abort
        } else {
            self.recreated = true;
            FrameStep::RecreateAndRetry
        }
    }
}

/// A frame takes at most two attempts and rebuilds the swap chain at most
/// once: it is drawn at once if the first attempt succeeds, drawn after one
/// rebuild if only the first attempt fails, and given up if the attempt after
/// the rebuild fails too.
pub proof fn lemma_frame_recovers_once(results: Seq<bool>)
    requires
        results.len() >= 2,
    ensures
        results[0] ==> frame_steps(FrameAcquisition { recreated: false }, results) == seq![
            FrameStep::Draw,
        ],
        !results[0] && results[1] ==> frame_steps(FrameAcquisition { recreated: false }, results)
            == seq![FrameStep::RecreateAndRetry, FrameStep::Draw],
        !results[0] && !results[1] ==> frame_steps(FrameAcquisition { recreated: false }, results)
            == seq![FrameStep::RecreateAndRetry, FrameStep::Abort],
{
    let fresh = FrameAcquisition { recreated: false };
    let again = FrameAcquisition { recreated: true };
    let rest = results.drop_first();
    assert(rest.len() >= 1);
    assert(rest[0] == results[1]);
    assert(frame_steps(again, rest) == seq![step_after(again, rest[0])]);
    if !results[0] {
        assert(frame_steps(fresh, results) == seq![FrameStep::RecreateAndRetry] + frame_steps(
            again,
            rest,
        ));
        assert(seq![FrameStep::RecreateAndRetry] + seq![step_after(again, rest[0])] =~= seq![
            FrameStep::RecreateAndRetry,
            step_after(again, rest[0]),
        ]);
    }
}

} // verus!
