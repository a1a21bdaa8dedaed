//! Following the window as it is moved: the first position seen only sets
//! the baseline, every later one yields how far the window moved.

use vstd::prelude::*;

verus! {

/// The last known window position.
#[derive(Clone, Copy, Debug)]
pub struct WindowTracker {
    pub window_pos: Option<(i32, i32)>,
}

/// Whether moving from the last known position to `(x, y)` gives a
/// displacement that fits the position type.
pub open spec fn displacement_fits(last: Option<(i32, i32)>, x: i32, y: i32) -> bool {
    match last {
        Some((px, py)) => i32::MIN <= x - px <= i32::MAX && i32::MIN <= y - py <= i32::MAX,
        None => true,
    }
}

impl WindowTracker {
    /// No position seen yet.
    pub fn new() -> (tracker: Self)
        ensures
            tracker.window_pos is None,
    {
        WindowTracker { window_pos: None }
    }

    /// Records the window's new position and returns how far it moved since the
    /// last one, in pixels; the first position only sets the baseline.
    pub fn update_window_pos(&mut self, x: i32, y: i32) -> (moved: Option<(i32, i32)>)
        requires
            displacement_fits(old(self).window_pos, x, y),
        ensures
            final(self).window_pos == Some((x, y)),
            match old(self).window_pos {
                Some((px, py)) => moved == Some(((x - px) as i32, (y - py) as i32)),
                None => moved is None,
            },
    {
        let moved = match self.window_pos {
            Some((px, py)) => Some((x - px, y - py)),
            None => None,
        };
        self.window_pos = Some((x, y));
        moved
    }
}

} // verus!
