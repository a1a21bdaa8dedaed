//! What the renderer keeps track of besides the GPU objects themselves, and
//! the decisions it takes from it: the window size, the surface size, the
//! multisampling mode and how many vertices the next pass draws.

use vstd::prelude::*;
use crate::msaa::{is_supported_sample_count, normalized_sample_count, normalize_msaa_sample_count};

verus! {

/// What a resize asks of the GPU side.
#[derive(Clone, Copy, Debug, PartialEq, Eq, Structural)]
pub struct ResizeEffect {
    /// The surface is configured again with the new size.
    pub reconfigure_surface: bool,
    /// The multisampled render target is made again at the new size.
    pub recreate_msaa_target: bool,
}

/// How the next render pass is set up.
#[derive(Clone, Copy, Debug, PartialEq, Eq, Structural)]
pub struct PassPlan {
    /// Render into the multisampled target and resolve into the surface,
    /// rather than render into the surface directly.
    pub render_to_msaa_target: bool,
    /// The number of vertices drawn, if any are.
    pub draw_vertices: Option<u32>,
}

/// The renderer's bookkeeping.
pub struct RenderState {
    size: (u32, u32),
    surface_width: u32,
    surface_height: u32,
    msaa_sample_count: u32,
    num_vertices: u32,
}

/// The larger of a dimension and 1: a surface is never configured empty.
pub open spec fn at_least_one(n: u32) -> u32 {
    if n == 0 {
        1
    } else {
        n
    }
}

/// The size a surface is configured with for a window of the given size:
/// each dimension at least 1.
pub fn surface_extent(width: u32, height: u32) -> (extent: (u32, u32))
    ensures
        extent == (at_least_one(width), at_least_one(height)),
        width > 0 ==> extent.0 == width,
        height > 0 ==> extent.1 == height,
        width == 0 ==> extent.0 == 1,
        height == 0 ==> extent.1 == 1,
{
    let w: u32 = if width == 0 {
        1
    } else {
        width
    };
    let h: u32 = if height == 0 {
        1
    } else {
        height
    };
    (w, h)
}

impl RenderState {
    #[verifier::type_invariant]
    spec fn well_formed(self) -> bool {
        &&& is_supported_sample_count(self.msaa_sample_count as int)
        &&& self.surface_width >= 1
        &&& self.surface_height >= 1
    }

    /// The window size last accepted.
    pub closed spec fn size_of(self) -> (u32, u32) {
        self.size
    }

    /// The size the surface is configured with.
    pub closed spec fn surface_size_of(self) -> (u32, u32) {
        (self.surface_width, self.surface_height)
    }

    /// The sample count the pipeline was built with.
    pub closed spec fn sample_count_of(self) -> u32 {
        self.msaa_sample_count
    }

    /// The vertices the next pass draws.
    pub closed spec fn vertex_count_of(self) -> u32 {
        self.num_vertices
    }

    /// The state after a resize to `width` by `height`.
    pub closed spec fn resized(self, width: u32, height: u32) -> Self {
        if width > 0 && height > 0 {
            RenderState { size: (width, height), surface_width: width, surface_height: height, ..self }
        } else {
            self
        }
    }

    /// The state after `vertex_count` vertices are handed over.
    pub closed spec fn with_vertices(self, vertex_count: usize) -> Self {
        RenderState { num_vertices: vertex_count as u32, ..self }
    }

    /// How the next pass is set up in this state.
    pub closed spec fn plan_of(self) -> PassPlan {
        PassPlan {
            render_to_msaa_target: self.msaa_sample_count > 1,
            draw_vertices: if self.num_vertices > 0 {
                Some(self.num_vertices)
            } else {
                None
            },
        }
    }

    /// The state of a renderer made for a window of the given size, with the
    /// requested multisampling normalized to a supported sample count.
    pub fn new(width: u32, height: u32, requested_msaa: u32) -> (state: Self)
        ensures
            state.size_of() == (width, height),
            state.surface_size_of() == (at_least_one(width), at_least_one(height)),
            width > 0 && height > 0 ==> state.surface_size_of() == (width, height),
            width == 0 ==> state.surface_size_of().0 == 1,
            height == 0 ==> state.surface_size_of().1 == 1,
            state.sample_count_of() == normalized_sample_count(requested_msaa as int),
            state.vertex_count_of() == 0,
    {
        let msaa_sample_count = normalize_msaa_sample_count(requested_msaa);
        let (surface_width, surface_height) = surface_extent(width, height);
        RenderState {
            size: (width, height),
            surface_width,
            surface_height,
            msaa_sample_count,
            num_vertices: 0,
        }
    }

    /// Takes a new window size. A size with a zero dimension is ignored;
    /// otherwise both the window size and the surface take it.
    pub fn resize(&mut self, width: u32, height: u32) -> (effect: ResizeEffect)
        ensures
            effect.reconfigure_surface == (width > 0 && height > 0),
            effect.recreate_msaa_target == (width > 0 && height > 0
                && old(self).sample_count_of() > 1),
            width > 0 && height > 0 ==> final(self).size_of() == (width, height)
                && final(self).surface_size_of() == (width, height),
            !(width > 0 && height > 0) ==> final(self).size_of() == old(self).size_of()
                && final(self).surface_size_of() == old(self).surface_size_of(),
            final(self).sample_count_of() == old(self).sample_count_of(),
            final(self).vertex_count_of() == old(self).vertex_count_of(),
            *final(self) == old(self).resized(width, height),
    {
        proof {
            use_type_invariant(&*self);
        }
        if width > 0 && height > 0 {
            self.size = (width, height);
            self.surface_width = width;
            self.surface_height = height;
            ResizeEffect {
                reconfigure_surface: true,
                recreate_msaa_target: crate::msaa::msaa_enabled(self.msaa_sample_count),
            }
        } else {
            ResizeEffect { reconfigure_surface: false, recreate_msaa_target: false }
        }
    }

    /// Records how many vertices were handed over for the next pass (kept as
    /// a 32-bit count, as the draw call takes it) and says whether they are
    /// uploaded: an empty list leaves the vertex buffer as it is.
    pub fn update_vertices(&mut self, vertex_count: usize) -> (upload: bool)
        ensures
            upload == (vertex_count > 0),
            final(self).vertex_count_of() == vertex_count as u32,
            final(self).size_of() == old(self).size_of(),
            final(self).surface_size_of() == old(self).surface_size_of(),
            final(self).sample_count_of() == old(self).sample_count_of(),
            *final(self) == old(self).with_vertices(vertex_count),
    {
        proof {
            use_type_invariant(&*self);
        }
        #[verifier::truncate]
        let count: u32 = vertex_count as u32;
        self.num_vertices = count;
        vertex_count > 0
    }

    /// How the next pass is set up: through the multisampled target when
    /// multisampling is on, and with a draw call only when there are vertices.
    pub fn pass_plan(&self) -> (plan: PassPlan)
        ensures
            plan.render_to_msaa_target == (self.sample_count_of() > 1),
            plan.draw_vertices == (if self.vertex_count_of() > 0 {
                Some(self.vertex_count_of())
            } else {
                None
            }),
            plan == self.plan_of(),
    {
        let draw_vertices = if self.num_vertices > 0 {
            Some(self.num_vertices)
        } else {
            None
        };
        PassPlan {
            render_to_msaa_target: crate::msaa::msaa_enabled(self.msaa_sample_count),
            draw_vertices,
        }
    }

    /// The window size last accepted.
    pub fn size(&self) -> (size: (u32, u32))
        ensures
            size == self.size_of(),
    {
        self.size
    }

    /// The size the surface is configured with; neither dimension is ever zero.
    pub fn surface_size(&self) -> (size: (u32, u32))
        ensures
            size == self.surface_size_of(),
            size.0 >= 1 && size.1 >= 1,
    {
        proof {
            use_type_invariant(self);
        }
        (self.surface_width, self.surface_height)
    }

    /// The sample count the pipeline was built with; it is always 1, 2, 4 or 8.
    pub fn msaa_sample_count(&self) -> (count: u32)
        ensures
            count == self.sample_count_of(),
            is_supported_sample_count(count as int),
    {
        proof {
            use_type_invariant(self);
        }
        self.msaa_sample_count
    }

    /// The vertices the next pass draws.
    pub fn num_vertices(&self) -> (count: u32)
        ensures
            count == self.vertex_count_of(),
    {
        self.num_vertices
    }
}

/// A surface is as large as its window, except that an empty dimension is
/// configured as 1, the smallest non-empty size that is at least the window's.
pub proof fn lemma_surface_covers_window(n: u32)
    ensures
        n > 0 ==> at_least_one(n) == n,
        n == 0 ==> at_least_one(n) == 1,
        at_least_one(n) >= 1,
        at_least_one(n) >= n,
        at_least_one(n) <= n + 1,
{
}

/// Resizing twice to the same size is resizing once, a size with a zero
/// dimension changes nothing, and no resize changes the multisampling mode or
/// the vertices to draw.
pub proof fn lemma_resize_idempotent(state: RenderState, width: u32, height: u32)
    ensures
        state.resized(width, height).resized(width, height) == state.resized(width, height),
        (width == 0 || height == 0) ==> state.resized(width, height) == state,
        state.resized(width, height).sample_count_of() == state.sample_count_of(),
        state.resized(width, height).vertex_count_of() == state.vertex_count_of(),
        state.resized(width, height).plan_of() == state.plan_of(),
{
}

/// The next pass draws exactly the vertices last handed over, as long as there
/// are some and their count fits the draw call; a new list replaces the old one.
pub proof fn lemma_draws_what_was_handed_over(state: RenderState, first: usize, vertex_count: usize)
    requires
        0 < vertex_count <= u32::MAX,
    ensures
        state.with_vertices(first).with_vertices(vertex_count).plan_of().draw_vertices == Some(
            vertex_count as u32,
        ),
        state.with_vertices(vertex_count).plan_of().draw_vertices matches Some(n) && n
            == vertex_count,
        state.with_vertices(0).plan_of().draw_vertices is None,
{
    assert((vertex_count as u32) as int == vertex_count as int) by (bit_vector)
        requires
            vertex_count <= 0xffff_ffffusize,
    ;
}

/// The format a surface is configured with, given which of the formats the
/// surface offers (in its order of preference) are sRGB: the first sRGB
/// one, or the first one offered when none is.
pub fn preferred_format_index(is_srgb: &Vec<bool>) -> (index: usize)
    requires
        is_srgb.len() > 0,
    ensures
        index < is_srgb.len(),
        (exists|i: int| 0 <= i < is_srgb.len() && is_srgb[i]) ==> is_srgb[index as int],
        (exists|i: int| 0 <= i < is_srgb.len() && is_srgb[i]) ==> forall|j: int|
            0 <= j < index ==> !is_srgb[j],
        !(exists|i: int| 0 <= i < is_srgb.len() && is_srgb[i]) ==> index == 0,
{
    let mut i: usize = 0;
    while i < is_srgb.len()
        invariant
            i <= is_srgb.len(),
            forall|j: int| 0 <= j < i ==> !is_srgb[j],
        decreases is_srgb.len() - i,
    {
        if is_srgb[i] {
            return i;
        }
        i = i + 1;
    }
    0
}

} // verus!
