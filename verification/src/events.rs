//! The decisions the window front end takes on what the event loop hands it.
//! The front end performs each command (it owns the window, the renderer and
//! the simulation) and hands the next event back.

use vstd::prelude::*;

verus! {

/// The keys the front end tells apart.
#[derive(Clone, Copy, Debug, PartialEq, Eq, Structural)]
pub enum Key {
    Escape,
    Q,
    Other,
}

/// A window event, reduced to what the decisions read.
#[derive(Clone, Copy, Debug, PartialEq, Eq, Structural)]
pub enum WindowInput {
    CloseRequested,
    Keyboard { pressed: bool, key: Key },
    Resized { width: u32, height: u32 },
    CursorMoved,
    CursorLeft,
    RedrawRequested,
    Other,
}

/// What the front end does in answer to an event.
#[derive(Clone, Copy, Debug, PartialEq, Eq, Structural)]
pub enum Command {
    /// Leave the event loop.
    Exit,
    /// Hand the new size to the renderer.
    ResizeRenderer { width: u32, height: u32 },
    /// Take the cursor's new position as the mouse position.
    TrackCursor,
    /// The cursor left the window: the mouse no longer acts on the fibers.
    ReleaseCursor,
    /// Step the simulation, draw a frame and ask for the next one.
    DrawFrame,
    /// Nothing to do.
    Ignore,
}

/// The front end's own state.
#[derive(Clone, Copy, Debug, PartialEq, Eq, Structural)]
pub struct LoopState {
    /// Frames drawn so far.
    pub frame_count: u64,
    /// Whether the window (with its renderer and lamp) has been made.
    pub window_created: bool,
}

/// Whether an event ends the program: closing the window, or pressing
/// Escape or Q.
pub open spec fn is_exit_request(event: WindowInput) -> bool {
    match event {
        WindowInput::CloseRequested => true,
        WindowInput::Keyboard { pressed, key } => pressed && (key == Key::Escape || key == Key::Q),
        _ => false,
    }
}

/// The command for an event.
pub open spec fn command_for(event: WindowInput) -> Command {
    match event {
        WindowInput::CloseRequested => Command::Exit,
        WindowInput::Keyboard { pressed, key } => if pressed && (key == Key::Escape || key
            == Key::Q) {
            Command::Exit
        } else {
            Command::Ignore
        },
        WindowInput::Resized { width, height } => Command::ResizeRenderer { width, height },
        WindowInput::CursorMoved => Command::TrackCursor,
        WindowInput::CursorLeft => Command::ReleaseCursor,
        WindowInput::RedrawRequested => Command::DrawFrame,
        WindowInput::Other => Command::Ignore,
    }
}

/// The state after an event: a redraw counts one more frame.
pub open spec fn state_after(state: LoopState, event: WindowInput) -> LoopState {
    match event {
        WindowInput::RedrawRequested => LoopState {
            frame_count: (state.frame_count + 1) as u64,
            ..state
        },
        _ => state,
    }
}

/// The state after the application is resumed, and whether the window,
/// renderer and lamp are made then.
pub open spec fn resume(state: LoopState) -> (LoopState, bool) {
    (LoopState { window_created: true, ..state }, !state.window_created)
}

/// Redraw events in a sequence of events.
pub open spec fn redraws_in(events: Seq<WindowInput>) -> nat
    decreases events.len(),
{
    if events.len() == 0 {
        0
    } else {
        redraws_in(events.drop_last()) + if events.last() == WindowInput::RedrawRequested {
            1nat
        } else {
            0nat
        }
    }
}

/// The state after a sequence of events.
pub open spec fn state_after_all(state: LoopState, events: Seq<WindowInput>) -> LoopState
    decreases events.len(),
{
    if events.len() == 0 {
        state
    } else {
        state_after(state_after_all(state, events.drop_last()), events.last())
    }
}

impl LoopState {
    /// The state before the event loop has started: nothing drawn, no window.
    pub fn new() -> (state: Self)
        ensures
            state.frame_count == 0,
            !state.window_created,
    {
        LoopState { frame_count: 0, window_created: false }
    }

    /// The application was resumed: says whether the window, renderer and
    /// lamp are to be made now, which is the case only the first time.
    pub fn on_resumed(&mut self) -> (create_window: bool)
        ensures
            (*final(self), create_window) == resume(*old(self)),
            create_window == !old(self).window_created,
            final(self).window_created,
            final(self).frame_count == old(self).frame_count,
    {
        if self.window_created {
            false
        } else {
            self.window_created = true;
            true
        }
    }

    /// The command for a window event, and the state after it.
    pub fn on_window_event(&mut self, event: WindowInput) -> (command: Command)
        requires
            event == WindowInput::RedrawRequested ==> old(self).frame_count < u64::MAX,
        ensures
            command == command_for(event),
            *final(self) == state_after(*old(self), event),
            final(self).frame_count == old(self).frame_count + if event
                == WindowInput::RedrawRequested {
                1int
            } else {
                0int
            },
            final(self).window_created == old(self).window_created,
            command == Command::Exit <==> is_exit_request(event),
            command == Command::DrawFrame <==> event == WindowInput::RedrawRequested,
            command == Command::TrackCursor <==> event == WindowInput::CursorMoved,
            command == Command::ReleaseCursor <==> event == WindowInput::CursorLeft,
            forall|w: u32, h: u32|
                command == (Command::ResizeRenderer { width: w, height: h }) <==> event == (
                WindowInput::Resized { width: w, height: h }),
            command == Command::Ignore <==> (event == WindowInput::Other || (
            event is Keyboard && !is_exit_request(event))),
    {
        match event {
            WindowInput::CloseRequested => Command::Exit,
            WindowInput::Keyboard { pressed, key } => {
                if pressed && (matches!(key, Key::Escape) || matches!(key, Key::Q)) {
                    Command::Exit
                } else {
                    Command::Ignore
                }
            },
            WindowInput::Resized { width, height } => Command::ResizeRenderer { width, height },
            WindowInput::CursorMoved => Command::TrackCursor,
            WindowInput::CursorLeft => Command::ReleaseCursor,
            WindowInput::RedrawRequested => {
                self.frame_count = self.frame_count + 1;
                Command::DrawFrame
            },
            WindowInput::Other => Command::Ignore,
        }
    }
}

/// Each event leads to its own command and to no other: only closing the
/// window or pressing Escape or Q exits, only a redraw request draws a frame,
/// a resize hands exactly the new size on, cursor moves and exits track and
/// release the cursor, and every other event, any keyboard event that is not
/// an exit request among them, is ignored.
pub proof fn lemma_command_for_each_event(event: WindowInput)
    ensures
        command_for(event) == Command::Exit <==> is_exit_request(event),
        command_for(event) == Command::DrawFrame <==> event == WindowInput::RedrawRequested,
        command_for(event) == Command::TrackCursor <==> event == WindowInput::CursorMoved,
        command_for(event) == Command::ReleaseCursor <==> event == WindowInput::CursorLeft,
        forall|w: u32, h: u32|
            command_for(event) == (Command::ResizeRenderer { width: w, height: h }) <==> event
                == (WindowInput::Resized { width: w, height: h }),
        command_for(event) == Command::Ignore <==> (event == WindowInput::Other || (
        event is Keyboard && !is_exit_request(event))),
        forall|pressed: bool, key: Key|
            !(pressed && (key == Key::Escape || key == Key::Q)) ==> #[trigger] command_for(
                WindowInput::Keyboard { pressed, key },
            ) == Command::Ignore,
        forall|pressed: bool, key: Key|
            (pressed && (key == Key::Escape || key == Key::Q)) ==> #[trigger] command_for(
                WindowInput::Keyboard { pressed, key },
            ) == Command::Exit,
        command_for(WindowInput::CloseRequested) == Command::Exit,
{
}

/// However often the application is resumed, the window is made once: on
/// the first resume, and on no later one.
pub proof fn lemma_window_made_once(state: LoopState)
    ensures
        resume(state).1 == !state.window_created,
        !resume(resume(state).0).1,
        resume(resume(state).0).0 == resume(state).0,
{
}

/// The frame counter counts redraw events and nothing else, and no event
/// changes whether the window exists.
pub proof fn lemma_frames_count_redraws(state: LoopState, events: Seq<WindowInput>)
    requires
        state.frame_count + redraws_in(events) <= u64::MAX,
    ensures
        state_after_all(state, events).frame_count == state.frame_count + redraws_in(events),
        state_after_all(state, events).window_created == state.window_created,
    decreases events.len(),
{
    if events.len() > 0 {
        lemma_frames_count_redraws(state, events.drop_last());
    }
}

} // verus!
