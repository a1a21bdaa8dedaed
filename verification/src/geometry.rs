//! How a frame is laid out: which fiber segments are drawn, how each is
//! colored, how many vertices a frame takes and where a tip finds its color.

use vstd::prelude::*;

verus! {

/// Nodes in each fiber.
pub const NODES: usize = 20;

/// Index of the first segment drawn: segment `i` joins node `i - 1` to node `i`,
/// and the segment leaving the base is skipped so that fibers start spread apart.
pub const FIRST_DRAWN_SEGMENT: usize = 2;

/// Vertices in the two triangles that make up one drawn segment.
pub const VERTICES_PER_SEGMENT: usize = 6;

/// Segments of the outline drawn around the cursor's collision circle.
pub const DEBUG_CIRCLE_SEGMENTS: usize = 32;

/// Capacity of the renderer's vertex buffer: 500 fibers of 19 segments of 6 vertices.
pub const MAX_VERTICES: usize = 500 * 19 * 6;

/// How a drawn segment is colored.
#[derive(Clone, Copy, Debug, PartialEq, Eq, Structural)]
pub enum SegmentStyle {
    /// By the depth of its node and its place along the fiber.
    Body,
    /// From the rotating palette, like the glowing tip.
    Tip,
}

/// The style of segment `i`: the last two segments of a fiber glow like its tip.
pub open spec fn style_of(i: int) -> SegmentStyle {
    if i < NODES - 2 {
        SegmentStyle::Body
    } else {
        SegmentStyle::Tip
    }
}

/// Segments drawn for each fiber.
pub open spec fn drawn_segments_per_fiber() -> nat {
    (NODES - FIRST_DRAWN_SEGMENT) as nat
}

/// Vertices produced for a lamp of `fibers` fibers.
pub open spec fn frame_vertices(fibers: nat) -> nat {
    fibers * drawn_segments_per_fiber() * (VERTICES_PER_SEGMENT as nat)
}

/// The style of a drawn segment.
pub fn segment_style(i: usize) -> (style: SegmentStyle)
    requires
        FIRST_DRAWN_SEGMENT <= i < NODES,
    ensures
        style == style_of(i as int),
        style == SegmentStyle::Tip <==> i >= NODES - 2,
{
    if i < NODES - 2 {
        SegmentStyle::Body
    } else {
        SegmentStyle::Tip
    }
}

/// Vertices produced for a lamp of `fibers` fibers.
pub fn frame_vertex_count(fibers: usize) -> (count: usize)
    requires
        frame_vertices(fibers as nat) <= usize::MAX,
    ensures
        count == frame_vertices(fibers as nat),
        count == fibers * 18 * 6,
{
    fibers * (NODES - FIRST_DRAWN_SEGMENT) * VERTICES_PER_SEGMENT
}

/// Vertices of the collision circle outline.
pub fn debug_circle_vertex_count() -> (count: usize)
    ensures
        count == DEBUG_CIRCLE_SEGMENTS * VERTICES_PER_SEGMENT,
{
    DEBUG_CIRCLE_SEGMENTS * VERTICES_PER_SEGMENT
}

/// Where a tip finds its color in a palette of `ncolors` entries: an empty
/// palette has none (the tip is then drawn white), otherwise the palette is
/// walked round and round.
pub open spec fn palette_slot(position: int, ncolors: int) -> Option<int> {
    if ncolors == 0 {
        None
    } else {
        Some(position % ncolors)
    }
}

/// The palette entry for a tip at `position` along the color wheel.
pub fn palette_index(position: usize, ncolors: usize) -> (index: Option<usize>)
    ensures
        index matches Some(i) ==> palette_slot(position as int, ncolors as int) == Some(i as int),
        index is None <==> palette_slot(position as int, ncolors as int) is None,
        index matches Some(i) ==> i < ncolors,
        ncolors > 0 ==> index is Some,
        position < ncolors ==> index == Some(position),
        index matches Some(i) ==> exists|q: int| position == #[trigger] (q * ncolors) + i,
{
    proof {
        if ncolors > 0 {
            lemma_palette_walk(position as int, ncolors as int);
        }
    }
    if ncolors == 0 {
        None
    } else {
        Some(position % ncolors)
    }
}

/// In a non-empty palette a tip finds the entry that lies as many steps past
/// a whole number of turns as its position: the entry is the position itself
/// while that is within the palette, and moving a whole palette further
/// along the wheel lands on the same entry.
pub proof fn lemma_palette_walk(position: int, ncolors: int)
    requires
        position >= 0,
        ncolors > 0,
    ensures
        palette_slot(position, ncolors) matches Some(i) && 0 <= i < ncolors && exists|q: int|
            position == #[trigger] (q * ncolors) + i,
        position < ncolors ==> palette_slot(position, ncolors) == Some(position),
        palette_slot(position + ncolors, ncolors) == palette_slot(position, ncolors),
{
    vstd::arithmetic::div_mod::lemma_fundamental_div_mod(position, ncolors);
    vstd::arithmetic::div_mod::lemma_mod_pos_bound(position, ncolors);
    let i: int = position % ncolors;
    let q: int = position / ncolors;
    assert(position == q * ncolors + i) by (nonlinear_arith)
        requires
            position == ncolors * (position / ncolors) + position % ncolors,
            q == position / ncolors,
            i == position % ncolors,
    ;
    if position < ncolors {
        vstd::arithmetic::div_mod::lemma_small_mod(position as nat, ncolors as nat);
    }
    assert(position + ncolors == (q + 1) * ncolors + i) by (nonlinear_arith)
        requires
            position == q * ncolors + i,
    ;
    vstd::arithmetic::div_mod::lemma_fundamental_div_mod_converse(position + ncolors, ncolors, q + 1, i);
}

/// Every fiber adds the same number of vertices: 18 drawn segments of 6
/// vertices each, so a lamp with one more fiber takes 108 more vertices and
/// an empty lamp takes none.
pub proof fn lemma_vertices_per_fiber(fibers: nat)
    ensures
        frame_vertices(0) == 0,
        frame_vertices(fibers + 1) == frame_vertices(fibers) + 108,
        frame_vertices(fibers) == fibers * 108,
{
    assert((fibers + 1) * 18 * 6 == fibers * 18 * 6 + 108) by (nonlinear_arith);
    assert(fibers * 18 * 6 == fibers * 108) by (nonlinear_arith);
}

/// Each fiber has exactly two tip-colored segments: the last two.
pub proof fn lemma_two_tip_segments(i: int)
    requires
        FIRST_DRAWN_SEGMENT <= i < NODES,
    ensures
        style_of(i) == SegmentStyle::Tip <==> (i == NODES - 2 || i == NODES - 1),
{
}

/// A lamp within the fiber limit, with the collision circle drawn on top,
/// fits in the renderer's vertex buffer.
pub proof fn lemma_frame_fits_vertex_buffer(fibers: nat)
    requires
        fibers <= crate::config::MAX_FIBERS,
    ensures
        frame_vertices(fibers) + DEBUG_CIRCLE_SEGMENTS * VERTICES_PER_SEGMENT <= MAX_VERTICES,
{
    assert(fibers * 18 * 6 <= 500 * 18 * 6) by (nonlinear_arith)
        requires
            fibers <= 500,
    ;
}

} // verus!
