use brics::run::{
    since, Command, ControlFlow, Event, EventLoop, FrameAcquisition, FrameStep, Key, SPIN_DEGREES,
    TICK_NANOS, TURN_STEP, TURN_STEP_BACK,
};

#[test]
fn constants_are_the_bit_patterns_of_their_values() {
    assert_eq!(TICK_NANOS, 10_000_000);
    assert_eq!(f32::from_bits(TURN_STEP), 0.1);
    assert_eq!(f32::from_bits(TURN_STEP_BACK), -0.1);
    assert_eq!(f32::from_bits(SPIN_DEGREES), 0.5);
}

#[test]
fn elapsed_time_never_runs_backwards() {
    assert_eq!(since(30, 10), 20);
    assert_eq!(since(10, 10), 0);
    assert_eq!(since(10, 30), 0);
    assert_eq!(since(u64::MAX, 0), u64::MAX);
}

#[test]
fn a_redraw_is_requested_after_more_than_a_tick() {
    let mut state = EventLoop::new(100);
    let reaction = state.step(100 + TICK_NANOS, Event::MainEventsCleared);
    assert_eq!(reaction.commands, vec![Command::RunTasks]);
    assert_eq!(reaction.control_flow, ControlFlow::WaitFor { nanos: 10_000_000 });
    assert_eq!(state, EventLoop::new(100));
    let reaction = state.step(101 + TICK_NANOS, Event::MainEventsCleared);
    assert_eq!(reaction.commands, vec![Command::RequestRedraw, Command::RunTasks]);
    assert_eq!(reaction.control_flow, ControlFlow::WaitFor { nanos: 10_000_000 });
    assert_eq!(state.last_update, 101 + TICK_NANOS);
    assert_eq!(state.previous_frame, 100);
    let reaction = state.step(102 + TICK_NANOS, Event::MainEventsCleared);
    assert_eq!(reaction.commands, vec![Command::RunTasks]);
}

#[test]
fn close_and_escape_leave_the_loop() {
    let mut state = EventLoop::new(0);
    let reaction = state.step(5, Event::CloseRequested);
    assert_eq!(reaction.control_flow, ControlFlow::Exit);
    assert!(reaction.commands.is_empty());
    let reaction = state.step(5, Event::KeyboardInput { key: Key::Escape, pressed: true });
    assert_eq!(reaction.control_flow, ControlFlow::Exit);
    assert!(reaction.commands.is_empty());
    let reaction = state.step(5, Event::KeyboardInput { key: Key::Escape, pressed: false });
    assert_eq!(reaction.control_flow, ControlFlow::WaitFor { nanos: TICK_NANOS });
    assert!(reaction.commands.is_empty());
    assert_eq!(state, EventLoop::new(0));
}

#[test]
fn a_and_d_turn_the_camera() {
    let mut state = EventLoop::new(0);
    let reaction = state.step(5, Event::KeyboardInput { key: Key::A, pressed: true });
    assert_eq!(
        reaction.commands,
        vec![Command::RotateCamera { yaw: 0.1f32.to_bits(), pitch: 0.0f32.to_bits() }]
    );
    assert_eq!(reaction.control_flow, ControlFlow::WaitFor { nanos: TICK_NANOS });
    let reaction = state.step(5, Event::KeyboardInput { key: Key::D, pressed: true });
    assert_eq!(
        reaction.commands,
        vec![Command::RotateCamera { yaw: (-0.1f32).to_bits(), pitch: 0.0f32.to_bits() }]
    );
    let reaction = state.step(5, Event::KeyboardInput { key: Key::A, pressed: false });
    assert!(reaction.commands.is_empty());
    let reaction = state.step(5, Event::KeyboardInput { key: Key::Other, pressed: true });
    assert!(reaction.commands.is_empty());
    let reaction = state.step(5, Event::Other);
    assert!(reaction.commands.is_empty());
    assert_eq!(reaction.control_flow, ControlFlow::WaitFor { nanos: TICK_NANOS });
}

#[test]
fn a_redraw_reports_the_frame_time_and_draws() {
    let mut state = EventLoop::new(1_000_000);
    let reaction = state.step(18_500_000, Event::RedrawRequested);
    assert_eq!(
        reaction.commands,
        vec![
            Command::ReportFrameTime { millis: 17 },
            Command::AcquireFrame,
            Command::RotateObject {
                index: 0,
                x: 1.0f32.to_bits(),
                y: 1.0f32.to_bits(),
                z: 0.0f32.to_bits(),
                degrees: 0.5f32.to_bits(),
            },
            Command::Render,
        ]
    );
    assert_eq!(reaction.control_flow, ControlFlow::WaitFor { nanos: TICK_NANOS });
    assert_eq!(state.previous_frame, 18_500_000);
    assert_eq!(state.last_update, 1_000_000);
    let reaction = state.step(18_000_000, Event::RedrawRequested);
    assert_eq!(reaction.commands[0], Command::ReportFrameTime { millis: 0 });
}

#[test]
fn a_frame_that_is_acquired_is_drawn() {
    let mut frame = FrameAcquisition::new();
    assert!(!frame.recreated);
    assert_eq!(frame.on_result(true), FrameStep::Draw);
    assert!(!frame.recreated);
}

#[test]
fn one_failure_recreates_the_swap_chain_and_the_retry_is_drawn() {
    let mut frame = FrameAcquisition::new();
    let mut recreations = 0;
    let mut steps = Vec::new();
    for acquired in [false, true] {
        let step = frame.on_result(acquired);
        if step == FrameStep::RecreateAndRetry {
            recreations += 1;
        }
        steps.push(step);
    }
    assert_eq!(steps, vec![FrameStep::RecreateAndRetry, FrameStep::Draw]);
    assert_eq!(recreations, 1);
}

#[test]
fn a_second_failure_in_a_row_gives_up() {
    let mut frame = FrameAcquisition::new();
    assert_eq!(frame.on_result(false), FrameStep::RecreateAndRetry);
    assert!(frame.recreated);
    assert_eq!(frame.on_result(false), FrameStep::Abort);
    assert_eq!(frame.on_result(false), FrameStep::Abort);
}

#[test]
fn each_frame_recovers_anew() {
    for _ in 0..3 {
        let mut frame = FrameAcquisition::new();
        assert_eq!(frame.on_result(false), FrameStep::RecreateAndRetry);
        assert_eq!(frame.on_result(true), FrameStep::Draw);
    }
}
