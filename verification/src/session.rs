//! What a lamp session is built from.

use vstd::prelude::*;

verus! {

/// Configuration of a session: the simulation's fiber count and the palette size.
#[derive(Clone, Copy, Debug, PartialEq, Eq, Structural)]
pub struct FiberlampConfig {
    pub fiber_count: usize,
    pub ncolors: usize,
}

/// Everything a front end builds a session from: the session's configuration
/// and the sample count requested of the renderer.
#[derive(Clone, Copy, Debug, PartialEq, Eq, Structural)]
pub struct InitSettings {
    pub session: FiberlampConfig,
    pub msaa_samples: u32,
}

} // verus!
