use vstd::prelude::*;

verus! {

/// The coordinates of one pixel inside the raster.
#[derive(Clone, Copy, Debug, PartialEq, Eq, Structural)]
pub struct PixelCoord {
    /// Column, counted from the left.
    pub x: usize,
    /// Row, counted from the top.
    pub y: usize,
}

/// Recovers a pixel's `(x, y)` coordinates from its position in the
/// row-major raster, as the driver tags each raster cell before the render.
pub fn locate_pixel(index: usize, width: usize, height: usize) -> (r: PixelCoord)
    requires
        0 < width,
        index < width * height,
    ensures
        r.x == index % width,
        r.y == index / width,
        r.x < width,
        r.y < height,
        index == r.y * width + r.x,
{
    proof {
        vstd::arithmetic::div_mod::lemma_fundamental_div_mod(index as int, width as int);
        assert(width as int * (index as int / width as int)
            == (index as int / width as int) * width as int) by (nonlinear_arith);
        assert(index / width < height) by (nonlinear_arith)
            requires
                0 < width,
                index < width * height,
        ;
    }
    PixelCoord { x: index % width, y: index / width }
}

/// A contiguous window of pixel indices, `start..end`, owned exclusively by
/// one unit of render work.
#[derive(Clone, Copy, Debug, PartialEq, Eq, Structural)]
pub struct PixelSpan {
    pub start: usize,
    pub end: usize,
}

impl PixelSpan {
    /// How many pixels the span covers.
    pub open spec fn len(&self) -> int {
        self.end - self.start
    }

    /// A span is well formed when its bounds are ordered.
    pub open spec fn wf(&self) -> bool {
        self.start <= self.end
    }
}

/// Halves a unit of render work, exactly as the parallel driver does: a span
/// of at least two pixels is cut at its midpoint into two disjoint spans that
/// together cover it, and a smaller span is returned whole. Because every
/// produced span lies inside the input span, repeated splitting keeps all
/// work items disjoint, so the workers need no locking.
pub fn split_span(span: PixelSpan) -> (r: (PixelSpan, Option<PixelSpan>))
    requires
        span.wf(),
    ensures
        r.0.wf(),
        r.0.start == span.start,
        span.len() < 2 ==> r.0 == span && r.1.is_none(),
        span.len() >= 2 ==> {
            &&& r.1 matches Some(rest) && rest.start == r.0.end && rest.end == span.end
            &&& r.0.end == span.start + span.len() / 2
            &&& r.0.len() == span.len() / 2
            &&& 0 < r.0.len() < span.len()
        },
{
    let half = (span.end - span.start) / 2;
    if half > 0 {
        let mid = span.start + half;
        (PixelSpan { start: span.start, end: mid }, Some(PixelSpan { start: mid, end: span.end }))
    } else {
        (span, None)
    }
}

/// What the integrator has just observed for the current ray.
#[derive(Clone, Copy, Debug, PartialEq, Eq, Structural)]
pub enum PathEvent {
    /// The ray left the scene without meeting anything.
    Miss,
    /// The ray met a surface; `scatters` records whether the surface's
    /// material produced a scattered ray.
    Hit { scatters: bool },
}

/// What the integrator must do next for the current ray.
#[derive(Clone, Copy, Debug, PartialEq, Eq, Structural)]
pub enum PathStep {
    /// The bounce budget is spent: the ray contributes black.
    Black,
    /// The ray escaped: it contributes the background color.
    Background,
    /// The surface absorbed the ray: it contributes the emitted light alone.
    EmittedOnly,
    /// The surface scattered the ray: the emitted light plus the attenuated
    /// color of the scattered ray, traced with the reduced budget.
    Bounce { next_depth: u32 },
}

/// One decision of the recursive light-transport integrator. The driver
/// performs the intersection query and the material scattering, reports what
/// happened as a [`PathEvent`], and follows the returned [`PathStep`].
/// A bounce always carries a strictly smaller budget, so a trace that starts
/// with budget `d` performs at most `d` bounces.
pub fn trace_step(depth_budget: u32, event: PathEvent) -> (r: PathStep)
    ensures
        r == (if depth_budget == 0 {
            PathStep::Black
        } else {
            match event {
                PathEvent::Miss => PathStep::Background,
                PathEvent::Hit { scatters: false } => PathStep::EmittedOnly,
                PathEvent::Hit { scatters: true } => (PathStep::Bounce {
                    next_depth: (depth_budget - 1) as u32,
                }),
            }
        }),
        r is Bounce ==> r->next_depth < depth_budget,
{
    if depth_budget == 0 {
        PathStep::Black
    } else {
        match event {
            PathEvent::Miss => PathStep::Background,
            PathEvent::Hit { scatters: false } => PathStep::EmittedOnly,
            PathEvent::Hit { scatters: true } => PathStep::Bounce {
                next_depth: depth_budget - 1,
            },
        }
    }
}

} // verus!
