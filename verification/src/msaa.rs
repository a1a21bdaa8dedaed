//! Multisample anti-aliasing: the sample counts the renderer accepts.

use vstd::prelude::*;

verus! {

/// Sample counts the render pipeline is built with: no multisampling, 2x, 4x or 8x.
pub open spec fn is_supported_sample_count(n: int) -> bool {
    n == 1 || n == 2 || n == 4 || n == 8
}

/// The sample count used for a requested one: 0 and 1 turn multisampling off,
/// 3 is raised to 4, and anything above 4 becomes 8.
pub open spec fn normalized_sample_count(requested: int) -> int {
    if requested <= 1 {
        1
    } else if requested == 2 {
        2
    } else if requested <= 4 {
        4
    } else {
        8
    }
}

/// Turns a requested sample count into one the pipeline supports.
pub fn normalize_msaa_sample_count(requested: u32) -> (count: u32)
    ensures
        count == normalized_sample_count(requested as int),
        is_supported_sample_count(count as int),
{
    match requested {
        0 | 1 => 1,
        2 => 2,
        3 | 4 => 4,
        _ => 8,
    }
}

/// Whether a sample count asks for a separate multisampled render target.
pub fn msaa_enabled(sample_count: u32) -> (enabled: bool)
    ensures
        enabled == (sample_count > 1),
{
    sample_count > 1
}

/// A supported sample count is used as it is.
pub proof fn lemma_supported_count_kept(n: int)
    requires
        is_supported_sample_count(n),
    ensures
        normalized_sample_count(n) == n,
{
}

/// Normalizing twice gives what normalizing once gives.
pub proof fn lemma_normalize_idempotent(requested: int)
    ensures
        normalized_sample_count(normalized_sample_count(requested)) == normalized_sample_count(
            requested,
        ),
{
}

/// Up to 8 samples, a request is rounded up to the smallest supported count
/// that is at least as large; above 8 it is lowered to 8, the largest one.
pub proof fn lemma_normalize_rounds_up(requested: int, other: int)
    requires
        is_supported_sample_count(other),
    ensures
        is_supported_sample_count(normalized_sample_count(requested)),
        requested <= 8 ==> requested <= normalized_sample_count(requested),
        requested <= other ==> normalized_sample_count(requested) <= other,
        requested > 8 ==> normalized_sample_count(requested) == 8,
{
}

} // verus!
