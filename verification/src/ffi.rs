//! Configuration handled by the C interface of the lamp library itself.

use vstd::prelude::*;
use crate::config::{
    clamp_fiber_count, clamped_fiber_count, DEFAULT_FIBER_COUNT, DEFAULT_MSAA_SAMPLES,
    DEFAULT_NCOLORS, MAX_FIBERS, MIN_FIBERS,
};
use crate::session::InitSettings;

verus! {

/// Configuration passed in by the C caller.
#[derive(Clone, Copy, Debug, PartialEq, Eq, Structural)]
pub struct FiberlampConfig {
    pub fiber_count: u32,
    pub ncolors: u32,
    pub msaa_samples: u32,
}

/// What a C configuration yields: the fiber count clamped into the allowed
/// range, the palette size and the sample count as given.
pub open spec fn settings_from(config: FiberlampConfig) -> InitSettings {
    InitSettings {
        session: crate::session::FiberlampConfig {
            fiber_count: clamped_fiber_count(config.fiber_count as int) as usize,
            ncolors: config.ncolors as usize,
        },
        msaa_samples: config.msaa_samples,
    }
}

/// The default configuration: 500 fibers, 64 colors, 4x multisampling.
pub fn fiberlamp_default_config() -> (config: FiberlampConfig)
    ensures
        config == (FiberlampConfig {
            fiber_count: DEFAULT_FIBER_COUNT,
            ncolors: DEFAULT_NCOLORS,
            msaa_samples: DEFAULT_MSAA_SAMPLES,
        }),
{
    FiberlampConfig {
        fiber_count: DEFAULT_FIBER_COUNT,
        ncolors: DEFAULT_NCOLORS,
        msaa_samples: DEFAULT_MSAA_SAMPLES,
    }
}

/// The fewest fibers a configuration can give.
pub fn fiberlamp_min_fibers() -> (count: u32)
    ensures
        count == MIN_FIBERS,
{
    MIN_FIBERS
}

/// The most fibers a configuration can give.
pub fn fiberlamp_max_fibers() -> (count: u32)
    ensures
        count == MAX_FIBERS,
{
    MAX_FIBERS
}

/// Validates a C configuration: the fiber count is clamped into
/// `fiberlamp_min_fibers()..=fiberlamp_max_fibers()`, the rest is taken as given
/// (the renderer normalizes the sample count itself).
pub fn init_settings(config: &FiberlampConfig) -> (settings: InitSettings)
    ensures
        settings == settings_from(*config),
        config.fiber_count < MIN_FIBERS ==> settings.session.fiber_count == MIN_FIBERS,
        config.fiber_count > MAX_FIBERS ==> settings.session.fiber_count == MAX_FIBERS,
        MIN_FIBERS <= config.fiber_count <= MAX_FIBERS ==> settings.session.fiber_count
            == config.fiber_count,
        settings.session.ncolors == config.ncolors,
        settings.msaa_samples == config.msaa_samples,
{
    let fiber_count = clamp_fiber_count(config.fiber_count);
    InitSettings {
        session: crate::session::FiberlampConfig {
            fiber_count: fiber_count as usize,
            ncolors: config.ncolors as usize,
        },
        msaa_samples: config.msaa_samples,
    }
}

/// The settings of the plain initialisation: the defaults, taken as they are.
pub fn default_init_settings() -> (settings: InitSettings)
    ensures
        settings == (InitSettings {
            session: crate::session::FiberlampConfig {
                fiber_count: DEFAULT_FIBER_COUNT as usize,
                ncolors: DEFAULT_NCOLORS as usize,
            },
            msaa_samples: DEFAULT_MSAA_SAMPLES,
        }),
{
    InitSettings {
        session: crate::session::FiberlampConfig {
            fiber_count: DEFAULT_FIBER_COUNT as usize,
            ncolors: DEFAULT_NCOLORS as usize,
        },
        msaa_samples: DEFAULT_MSAA_SAMPLES,
    }
}

/// The plain initialisation builds what the configured one builds from the
/// default configuration.
pub proof fn lemma_plain_init_is_default_config()
    ensures
        settings_from(
            FiberlampConfig {
                fiber_count: DEFAULT_FIBER_COUNT,
                ncolors: DEFAULT_NCOLORS,
                msaa_samples: DEFAULT_MSAA_SAMPLES,
            },
        ) == (InitSettings {
            session: crate::session::FiberlampConfig {
                fiber_count: DEFAULT_FIBER_COUNT as usize,
                ncolors: DEFAULT_NCOLORS as usize,
            },
            msaa_samples: DEFAULT_MSAA_SAMPLES,
        }),
{
}

/// Whatever the C caller asks for, the lamp gets an allowed number of fibers,
/// and a configuration already within bounds is used unchanged.
pub proof fn lemma_settings_within_bounds(config: FiberlampConfig)
    ensures
        MIN_FIBERS <= settings_from(config).session.fiber_count <= MAX_FIBERS,
        MIN_FIBERS <= config.fiber_count <= MAX_FIBERS ==> settings_from(
            config,
        ).session.fiber_count == config.fiber_count,
        settings_from(config).session.ncolors == config.ncolors,
        settings_from(config).msaa_samples == config.msaa_samples,
{
}

/// The fiber count kept is the allowed count nearest to the request: a request
/// below the minimum gets the minimum, one above the maximum gets the maximum,
/// and asking for more never gives fewer.
pub proof fn lemma_settings_nearest_allowed(config: FiberlampConfig, other: FiberlampConfig)
    ensures
        config.fiber_count < MIN_FIBERS ==> settings_from(config).session.fiber_count
            == MIN_FIBERS,
        config.fiber_count > MAX_FIBERS ==> settings_from(config).session.fiber_count
            == MAX_FIBERS,
        forall|n: int|
            MIN_FIBERS <= n <= MAX_FIBERS ==> #[trigger] (n - config.fiber_count)
                * (n - config.fiber_count) >= (settings_from(config).session.fiber_count
                - config.fiber_count) * (settings_from(config).session.fiber_count
                - config.fiber_count),
        config.fiber_count <= other.fiber_count ==> settings_from(config).session.fiber_count
            <= settings_from(other).session.fiber_count,
{
    let c: int = config.fiber_count as int;
    let k: int = settings_from(config).session.fiber_count as int;
    assert forall|n: int| MIN_FIBERS <= n <= MAX_FIBERS implies #[trigger] (n - c) * (n - c) >= (k
        - c) * (k - c) by {
        if c < MIN_FIBERS {
            assert((n - c) * (n - c) >= (k - c) * (k - c)) by (nonlinear_arith)
                requires
                    k == MIN_FIBERS,
                    n >= k,
                    k > c,
            ;
        } else if c > MAX_FIBERS {
            assert((n - c) * (n - c) >= (k - c) * (k - c)) by (nonlinear_arith)
                requires
                    k == MAX_FIBERS,
                    n <= k,
                    k < c,
            ;
        } else {
            assert(k == c);
            assert((n - c) * (n - c) >= (k - c) * (k - c)) by (nonlinear_arith)
                requires
                    k == c,
            ;
        }
    }
}

} // verus!
