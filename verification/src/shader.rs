use vstd::prelude::*;
use crate::pipeline::{triangle_pipeline, CullMode, Extent, FrontFace, PipelineConfig};

verus! {

/// What the vertex stage puts out for one vertex, before it is turned into
/// floating point: a position in clip space and a colour with one channel set.
#[derive(Clone, Copy, Debug, PartialEq, Eq, Structural)]
pub struct Vertex {
    pub x: i32,
    pub y: i32,
    pub z: i32,
    pub w: i32,
    pub red: i32,
    pub green: i32,
    pub blue: i32,
}

/// The number of vertices of the one draw call.
pub const VERTEX_COUNT: u32 = 3;

/// The vertex with the given index: the corners of the triangle are
/// (1, 1), (0, -1) and (-1, 1), in red, green and blue. In the frame, whose
/// rows run from the top down, that is the bottom right corner, the middle of
/// the top edge and the bottom left corner.
pub open spec fn vertex_of(vert_id: int) -> Vertex {
    Vertex {
        x: (1 - vert_id) as i32,
        y: if vert_id % 2 == 0 { 1i32 } else { -1i32 },
        z: 0,
        w: 1,
        red: if vert_id == 0 { 1i32 } else { 0i32 },
        green: if vert_id == 1 { 1i32 } else { 0i32 },
        blue: if vert_id == 2 { 1i32 } else { 0i32 },
    }
}

/// A point of the frame, counted in half pixels from the top left corner, so
/// that the centre of every pixel has whole coordinates.
pub struct FramePoint {
    pub x: int,
    pub y: int,
}

/// Where the viewport of the fixed pipeline puts a vertex: clip -1 to 1 is
/// spread over the whole width, and over the whole height from the top down.
pub open spec fn corner(vert_id: int, extent: Extent) -> FramePoint {
    FramePoint {
        x: (vertex_of(vert_id).x + 1) * extent.width,
        y: (vertex_of(vert_id).y + 1) * extent.height,
    }
}

/// The centre of the pixel in column `x` of row `y`.
pub open spec fn pixel_centre(x: int, y: int) -> FramePoint {
    FramePoint { x: 2 * x + 1, y: 2 * y + 1 }
}

/// The area of the triangle `a`, `b`, `c` with the sign the rasteriser gives
/// it, in eighths of a square pixel: positive where the corners run
/// counter-clockwise in its sense.
pub open spec fn facing(a: FramePoint, b: FramePoint, c: FramePoint) -> int {
    -((a.x * b.y - b.x * a.y) + (b.x * c.y - c.x * b.y) + (c.x * a.y - a.x * c.y))
}

/// The facing of the triangle that the vertex stage emits.
pub open spec fn triangle_facing(extent: Extent) -> int {
    facing(corner(0, extent), corner(1, extent), corner(2, extent))
}

/// Two numbers that are both positive or both negative.
pub open spec fn same_sign(left: int, right: int) -> bool {
    (left > 0 && right > 0) || (left < 0 && right < 0)
}

/// The centre of the pixel lies strictly inside the triangle: it is on the
/// inner side of each of the three edges.
pub open spec fn covers(extent: Extent, x: int, y: int) -> bool {
    let p = pixel_centre(x, y);
    let whole = triangle_facing(extent);
    &&& same_sign(facing(corner(0, extent), corner(1, extent), p), whole)
    &&& same_sign(facing(corner(1, extent), corner(2, extent), p), whole)
    &&& same_sign(facing(corner(2, extent), corner(0, extent), p), whole)
}

/// The centre of the pixel lies strictly outside the triangle: it is on the
/// outer side of one of the three edges.
pub open spec fn misses(extent: Extent, x: int, y: int) -> bool {
    let p = pixel_centre(x, y);
    let whole = triangle_facing(extent);
    ||| same_sign(facing(corner(0, extent), corner(1, extent), p), -whole)
    ||| same_sign(facing(corner(1, extent), corner(2, extent), p), -whole)
    ||| same_sign(facing(corner(2, extent), corner(0, extent), p), -whole)
}

/// A triangle of the given facing gets past the culling of the pipeline.
pub open spec fn is_drawn(config: PipelineConfig, facing: int) -> bool {
    let front = match config.front_face {
        FrontFace::CounterClockwise => facing > 0,
        FrontFace::Clockwise => facing < 0,
    };
    match config.cull {
        CullMode::Disabled => true,
        CullMode::Front => !front,
        CullMode::Back => front,
    }
}

/// Computes the vertex that the vertex stage emits for index `vert_id`.
pub fn triangle_vertex(vert_id: i32) -> (vertex: Vertex)
    requires
        0 <= vert_id < VERTEX_COUNT,
    ensures
        vertex == vertex_of(vert_id as int),
{
    let parity: i32 = vert_id & 1;
    assert(parity == vert_id % 2) by (bit_vector)
        requires
            parity == vert_id & 1,
            0 <= vert_id < 3,
    ;
    Vertex {
        x: 1 - vert_id,
        y: 1 - parity * 2,
        z: 0,
        w: 1,
        red: if vert_id == 0 { 1 } else { 0 },
        green: if vert_id == 1 { 1 } else { 0 },
        blue: if vert_id == 2 { 1 } else { 0 },
    }
}

proof fn lemma_scaled(factor: int, size: int, expected: int)
    by (nonlinear_arith)
    requires
        0 <= factor <= 2,
        expected == if factor == 0 {
            0
        } else if factor == 1 {
            size
        } else {
            2 * size
        },
    ensures
        factor * size == expected,
{
}

/// The corners in the frame: bottom right, middle of the top edge, bottom left.
proof fn lemma_corners(extent: Extent)
    ensures
        corner(0, extent) == (FramePoint { x: 2 * extent.width, y: 2 * extent.height }),
        corner(1, extent) == (FramePoint { x: extent.width as int, y: 0 }),
        corner(2, extent) == (FramePoint { x: 0, y: 2 * extent.height }),
{
    let w = extent.width as int;
    let h = extent.height as int;
    lemma_scaled(vertex_of(0).x + 1, w, 2 * w);
    lemma_scaled(vertex_of(0).y + 1, h, 2 * h);
    lemma_scaled(vertex_of(1).x + 1, w, w);
    lemma_scaled(vertex_of(1).y + 1, h, 0);
    lemma_scaled(vertex_of(2).x + 1, w, 0);
    lemma_scaled(vertex_of(2).y + 1, h, 2 * h);
}

/// The triangle is front-facing for the fixed pipeline, which culls back
/// faces only, so it is drawn at every size of the frame.
pub proof fn lemma_triangle_is_drawn(extent: Extent)
    requires
        extent.width > 0,
        extent.height > 0,
    ensures
        triangle_facing(extent) == 4 * (extent.width * extent.height),
        triangle_facing(extent) > 0,
        is_drawn(triangle_pipeline(extent), triangle_facing(extent)),
{
    let w = extent.width as int;
    let h = extent.height as int;
    lemma_corners(extent);
    assert(-(((2 * w) * 0 - w * (2 * h)) + (w * (2 * h) - 0 * 0) + (0 * (2 * h) - (2 * w) * (2
        * h))) == 4 * (w * h) && w * h > 0) by (nonlinear_arith)
        requires
            w > 0,
            h > 0,
    ;
}

/// The pixel in the middle of the frame is covered by the triangle.
pub proof fn lemma_centre_pixel_is_covered(extent: Extent)
    requires
        extent.width >= 3,
        extent.height >= 1,
    ensures
        covers(extent, extent.width as int / 2, extent.height as int / 2),
{
    let w = extent.width as int;
    let h = extent.height as int;
    let x = 2 * (w / 2) + 1;
    let y = 2 * (h / 2) + 1;
    lemma_triangle_is_drawn(extent);
    lemma_corners(extent);
    assert(pixel_centre(w / 2, h / 2) == FramePoint { x, y });
    assert(-(((2 * w) * 0 - w * (2 * h)) + (w * y - x * 0) + (x * (2 * h) - (2 * w) * y)) > 0)
        by (nonlinear_arith)
        requires
            w >= 3,
            h >= 1,
            w <= x <= w + 1,
            h <= y <= h + 1,
    ;
    assert(-((w * (2 * h) - 0 * 0) + (0 * y - x * (2 * h)) + (x * 0 - w * y)) > 0)
        by (nonlinear_arith)
        requires
            w >= 3,
            h >= 1,
            w <= x <= w + 1,
            h <= y <= h + 1,
    ;
    assert(-((0 * (2 * h) - (2 * w) * (2 * h)) + ((2 * w) * y - x * (2 * h)) + (x * (2 * h) - 0
        * y)) > 0) by (nonlinear_arith)
        requires
            w >= 3,
            h >= 1,
            y <= 2 * h - 1,
    ;
}

/// The pixel in the top left corner of the frame is not touched by the
/// triangle, so it keeps the colour the render pass cleared it to.
pub proof fn lemma_corner_pixel_is_missed(extent: Extent)
    requires
        extent.width >= 3,
        extent.height >= 1,
    ensures
        misses(extent, 0, 0),
{
    let w = extent.width as int;
    let h = extent.height as int;
    lemma_triangle_is_drawn(extent);
    lemma_corners(extent);
    assert(pixel_centre(0, 0) == FramePoint { x: 1, y: 1 });
    assert(-((w * (2 * h) - 0 * 0) + (0 * 1 - 1 * (2 * h)) + (1 * 0 - w * 1)) < 0)
        by (nonlinear_arith)
        requires
            w >= 3,
            h >= 1,
    ;
}

} // verus!
