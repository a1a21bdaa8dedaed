//! Command line options of the plain screensaver.

use vstd::prelude::*;
use crate::config::{clamp_fiber_count, clamped_fiber_count};
use crate::session::FiberlampConfig;

verus! {

/// Options of the plain screensaver.
#[derive(Clone, Copy, Debug, PartialEq, Eq, Structural)]
pub struct Args {
    /// Number of fibers (10-500).
    pub count: u32,
    /// Frame delay in milliseconds.
    pub delay: u32,
    /// Number of colors in the palette.
    pub ncolors: u32,
    /// Run in a window instead of fullscreen.
    pub windowed: bool,
}

impl Default for Args {
    /// The options when none is given: 500 fibers, 16 ms, 64 colors, fullscreen.
    fn default() -> (args: Self)
        ensures
            args == (Args { count: 500, delay: 16, ncolors: 64, windowed: false }),
    {
        Args { count: 500, delay: 16, ncolors: 64, windowed: false }
    }
}

impl Args {
    /// The session these options ask for: the fiber count kept within
    /// 10-500 and the palette size as given.
    pub fn session_config(&self) -> (config: FiberlampConfig)
        ensures
            config.fiber_count == clamped_fiber_count(self.count as int),
            self.count < 10 ==> config.fiber_count == 10,
            self.count > 500 ==> config.fiber_count == 500,
            10 <= self.count <= 500 ==> config.fiber_count == self.count,
            config.ncolors == self.ncolors,
    {
        let fiber_count = clamp_fiber_count(self.count);
        FiberlampConfig { fiber_count: fiber_count as usize, ncolors: self.ncolors as usize }
    }
}

} // verus!
