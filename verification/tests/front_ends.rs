use fiberlamp::events::{Command, Key, LoopState, WindowInput};
use fiberlamp::frame::{
    animate_status_code, frame_follow_up, FrameFollowUp, RenderOutcome, STATUS_NULL_HANDLE,
    STATUS_PANICKED, STATUS_PASSING_ERROR,
};

#[test]
fn c_status_codes() {
    assert_eq!(animate_status_code(RenderOutcome::Presented), 0);
    assert_eq!(animate_status_code(RenderOutcome::Lost), 1);
    assert_eq!(animate_status_code(RenderOutcome::OutOfMemory), -2);
    assert_eq!(animate_status_code(RenderOutcome::Outdated), 2);
    assert_eq!(animate_status_code(RenderOutcome::Timeout), 2);
    assert_eq!(animate_status_code(RenderOutcome::Other), 2);
    assert_eq!(STATUS_PASSING_ERROR, 2);
    assert_eq!(STATUS_NULL_HANDLE, -1);
    assert_eq!(STATUS_PANICKED, -3);
}

#[test]
fn window_front_end_follow_ups() {
    assert_eq!(frame_follow_up(RenderOutcome::Presented), FrameFollowUp::Continue);
    assert_eq!(frame_follow_up(RenderOutcome::Lost), FrameFollowUp::ResizeToWindow);
    assert_eq!(frame_follow_up(RenderOutcome::Outdated), FrameFollowUp::ResizeToWindow);
    assert_eq!(frame_follow_up(RenderOutcome::OutOfMemory), FrameFollowUp::Exit);
    assert_eq!(frame_follow_up(RenderOutcome::Timeout), FrameFollowUp::Warn);
    assert_eq!(frame_follow_up(RenderOutcome::Other), FrameFollowUp::Warn);
}

#[test]
fn window_is_made_on_first_resume_only() {
    let mut state = LoopState::new();
    assert!(state.on_resumed());
    assert!(state.window_created);
    assert!(!state.on_resumed());
    assert!(!state.on_resumed());
}

#[test]
fn close_and_exit_keys_end_the_program() {
    let mut state = LoopState::new();
    assert_eq!(state.on_window_event(WindowInput::CloseRequested), Command::Exit);
    assert_eq!(
        state.on_window_event(WindowInput::Keyboard { pressed: true, key: Key::Escape }),
        Command::Exit
    );
    assert_eq!(
        state.on_window_event(WindowInput::Keyboard { pressed: true, key: Key::Q }),
        Command::Exit
    );
    assert_eq!(
        state.on_window_event(WindowInput::Keyboard { pressed: false, key: Key::Escape }),
        Command::Ignore
    );
    assert_eq!(
        state.on_window_event(WindowInput::Keyboard { pressed: true, key: Key::Other }),
        Command::Ignore
    );
}

#[test]
fn other_events_map_to_their_commands() {
    let mut state = LoopState::new();
    assert_eq!(
        state.on_window_event(WindowInput::Resized { width: 640, height: 480 }),
        Command::ResizeRenderer { width: 640, height: 480 }
    );
    assert_eq!(state.on_window_event(WindowInput::CursorMoved), Command::TrackCursor);
    assert_eq!(state.on_window_event(WindowInput::CursorLeft), Command::ReleaseCursor);
    assert_eq!(state.on_window_event(WindowInput::Other), Command::Ignore);
    assert_eq!(state.frame_count, 0);
}

#[test]
fn frames_are_counted_on_redraws() {
    let mut state = LoopState::new();
    let events = [
        WindowInput::RedrawRequested,
        WindowInput::CursorMoved,
        WindowInput::RedrawRequested,
        WindowInput::Resized { width: 1, height: 1 },
        WindowInput::RedrawRequested,
    ];
    for e in events {
        state.on_window_event(e);
    }
    assert_eq!(state.frame_count, 3);
    assert_eq!(state.on_window_event(WindowInput::RedrawRequested), Command::DrawFrame);
    assert_eq!(state.frame_count, 4);
}
