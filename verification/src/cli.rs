//! Command line options of the interactive lamp.

use vstd::prelude::*;
use crate::config::{clamp_fiber_count, clamped_fiber_count};
use crate::msaa::{normalize_msaa_sample_count, normalized_sample_count};
use crate::session::FiberlampConfig;

verus! {

/// Options of the interactive lamp.
#[derive(Clone, Copy, Debug, PartialEq, Eq, Structural)]
pub struct Args {
    /// Number of fibers (10-500).
    pub count: u32,
    /// Frame delay in milliseconds.
    pub delay: u32,
    /// Number of colors in the palette.
    pub ncolors: u32,
    /// Run in a window instead of fullscreen.
    pub windowed: bool,
    /// Sample count for anti-aliasing (1 = off, 2, 4 or 8).
    pub msaa: u32,
    /// Draw debug visualizations (the cursor's collision circle).
    pub debug: bool,
}

impl Default for Args {
    /// The options when none is given: 500 fibers, 16 ms, 64 colors,
    /// fullscreen, no multisampling, no debug drawing.
    fn default() -> (args: Self)
        ensures
            args == (Args {
                count: 500,
                delay: 16,
                ncolors: 64,
                windowed: false,
                msaa: 1,
                debug: false,
            }),
    {
        Args { count: 500, delay: 16, ncolors: 64, windowed: false, msaa: 1, debug: false }
    }
}

impl Args {
    /// The session these options ask for: the fiber count kept within
    /// 10-500 and the palette size as given.
    pub fn session_config(&self) -> (config: FiberlampConfig)
        ensures
            config.fiber_count == clamped_fiber_count(self.count as int),
            self.count < 10 ==> config.fiber_count == 10,
            self.count > 500 ==> config.fiber_count == 500,
            10 <= self.count <= 500 ==> config.fiber_count == self.count,
            config.ncolors == self.ncolors,
    {
        let fiber_count = clamp_fiber_count(self.count);
        FiberlampConfig { fiber_count: fiber_count as usize, ncolors: self.ncolors as usize }
    }

    /// The sample count the renderer uses for these options.
    pub fn msaa_sample_count(&self) -> (count: u32)
        ensures
            count == normalized_sample_count(self.msaa as int),
    {
        normalize_msaa_sample_count(self.msaa)
    }

    /// Whether the window is made borderless fullscreen.
    pub fn fullscreen(&self) -> (full: bool)
        ensures
            full == !self.windowed,
    {
        !self.windowed
    }

    /// Whether the cursor's collision circle is drawn: in debug mode, while
    /// the mouse is over the window.
    pub fn draws_collision_circle(&self, mouse_active: bool) -> (draw: bool)
        ensures
            draw == (self.debug && mouse_active),
    {
        self.debug && mouse_active
    }
}

} // verus!
