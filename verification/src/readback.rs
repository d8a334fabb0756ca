use vstd::prelude::*;
use crate::commands::Rgba8;
use crate::error::RenderError;
use crate::pipeline::Extent;

verus! {

/// Where the backend says the rows of a linear image lie in its memory.
#[derive(Clone, Copy, Debug, PartialEq, Eq, Structural)]
pub struct SubresourceLayout {
    /// The byte at which the first row starts.
    pub offset: u64,
    /// The distance in bytes from the start of one row to the start of the next.
    pub row_pitch: u64,
}

/// A picture as a mathematical value: RGBA, eight bits a channel, rows from
/// top to bottom without gaps.
pub struct FrameView {
    pub width: u32,
    pub height: u32,
    pub pixels: Seq<u8>,
}

/// A picture of `width` by `height` pixels, tightly packed.
#[derive(Debug)]
pub struct Frame {
    width: u32,
    height: u32,
    pixels: Vec<u8>,
}

/// The number of bytes of one pixel.
pub const BYTES_PER_PIXEL: u32 = 4;

/// The number of bytes of one tightly packed row.
pub open spec fn row_bytes(width: u32) -> int {
    BYTES_PER_PIXEL * width
}

/// The byte at which row `row` starts in the mapped memory.
pub open spec fn row_start(layout: SubresourceLayout, row: int) -> int {
    layout.offset + row * layout.row_pitch
}

/// The rows do not overlap, and each of them lies inside the mapped memory.
pub open spec fn layout_fits(mapped_len: int, layout: SubresourceLayout, extent: Extent) -> bool {
    &&& row_bytes(extent.width) <= layout.row_pitch
    &&& forall|row: int|
        0 <= row < extent.height ==> #[trigger] row_start(layout, row) + row_bytes(extent.width)
            <= mapped_len
}

/// The first `rows` rows of the image, one after the other without the
/// padding between them.
pub open spec fn packed_rows(mapped: Seq<u8>, layout: SubresourceLayout, width: u32, rows: nat) -> Seq<
    u8,
>
    decreases rows,
{
    if rows == 0 {
        Seq::empty()
    } else {
        packed_rows(mapped, layout, width, (rows - 1) as nat) + mapped.subrange(
            row_start(layout, rows - 1),
            row_start(layout, rows - 1) + row_bytes(width),
        )
    }
}

/// The colour of the four bytes of `pixels` from `at` on.
pub open spec fn color_at(pixels: Seq<u8>, at: int) -> Rgba8 {
    Rgba8 { red: pixels[at], green: pixels[at + 1], blue: pixels[at + 2], alpha: pixels[at + 3] }
}

impl View for Frame {
    type V = FrameView;

    closed spec fn view(&self) -> FrameView {
        FrameView { width: self.width, height: self.height, pixels: self.pixels@ }
    }
}

proof fn lemma_product_bounds(a: int, b: int, a_max: int, b_max: int)
    by (nonlinear_arith)
    requires
        0 <= a <= a_max,
        0 <= b <= b_max,
    ensures
        0 <= a * b <= a_max * b_max,
{
}

proof fn lemma_product_step(a: int, n: int)
    by (nonlinear_arith)
    ensures
        a * (n + 1) == a * n + a,
{
}

/// A row of an image whose layout fits starts at or after the offset and
/// ends inside the mapped memory.
proof fn lemma_row_lies_inside(mapped_len: int, layout: SubresourceLayout, extent: Extent, row: int)
    requires
        layout_fits(mapped_len, layout, extent),
        0 <= row < extent.height,
    ensures
        0 <= row * layout.row_pitch,
        layout.offset <= row_start(layout, row),
        row_start(layout, row) + row_bytes(extent.width) <= mapped_len,
{
    lemma_product_bounds(row, layout.row_pitch as int, row, layout.row_pitch as int);
    assert(row_start(layout, row) + row_bytes(extent.width) <= mapped_len);
}

proof fn lemma_packed_rows_len(mapped: Seq<u8>, layout: SubresourceLayout, extent: Extent, rows: nat)
    requires
        layout_fits(mapped.len() as int, layout, extent),
        rows <= extent.height,
    ensures
        packed_rows(mapped, layout, extent.width, rows).len() == row_bytes(extent.width) * rows,
    decreases rows,
{
    let width_bytes = row_bytes(extent.width);
    if rows > 0 {
        lemma_packed_rows_len(mapped, layout, extent, (rows - 1) as nat);
        lemma_row_lies_inside(mapped.len() as int, layout, extent, rows - 1);
        lemma_product_step(width_bytes, rows - 1);
        let start = row_start(layout, rows - 1);
        assert(mapped.subrange(start, start + width_bytes).len() == width_bytes);
    } else {
        assert(width_bytes * 0 == 0);
    }
}

impl Frame {
    #[verifier::type_invariant]
    spec fn well_formed(self) -> bool {
        self.pixels@.len() == row_bytes(self.width) * self.height
    }

    /// Makes a picture of pixels that are already packed. The number of bytes
    /// has to be that of `width` times `height` pixels.
    pub fn new(width: u32, height: u32, pixels: Vec<u8>) -> (frame: Option<Frame>)
        ensures
            match frame {
                Some(frame) => {
                    &&& pixels@.len() == row_bytes(width) * height
                    &&& frame@ == FrameView { width, height, pixels: pixels@ }
                },
                None => pixels@.len() != row_bytes(width) * height,
            },
    {
        let row: u128 = 4 * (width as u128);
        proof {
            lemma_product_bounds(row as int, height as int, 0x3_ffff_fffc, 0xffff_ffff);
        }
        let expected: u128 = row * (height as u128);
        if pixels.len() as u128 == expected {
            Some(Frame { width, height, pixels })
        } else {
            None
        }
    }

    pub fn width(&self) -> (width: u32)
        ensures
            width == self@.width,
    {
        self.width
    }

    pub fn height(&self) -> (height: u32)
        ensures
            height == self@.height,
    {
        self.height
    }

    /// The packed bytes, top row first.
    pub fn pixels(&self) -> (pixels: &Vec<u8>)
        ensures
            pixels@ == self@.pixels,
            pixels@.len() == row_bytes(self@.width) * self@.height,
    {
        proof {
            use_type_invariant(self);
        }
        &self.pixels
    }

    /// The colour of the pixel in column `x` of row `y`, if the picture has
    /// such a pixel.
    pub fn pixel(&self, x: u32, y: u32) -> (color: Option<Rgba8>)
        ensures
            color == if x < self@.width && y < self@.height {
                Some(color_at(self@.pixels, row_bytes(self@.width) * y + BYTES_PER_PIXEL * x))
            } else {
                None::<Rgba8>
            },
            x < self@.width && y < self@.height ==> 0 <= row_bytes(self@.width) * y
                + BYTES_PER_PIXEL * x && row_bytes(self@.width) * y + BYTES_PER_PIXEL * x + 4
                <= self@.pixels.len(),
    {
        proof {
            use_type_invariant(self);
        }
        if x >= self.width || y >= self.height {
            return None;
        }
        let row: u128 = 4 * (self.width as u128);
        let len: usize = self.pixels.len();
        proof {
            lemma_product_bounds(row as int, y as int, row as int, self.height - 1);
            lemma_product_bounds(row as int, y as int, 0x3_ffff_fffc, 0xffff_ffff);
            lemma_product_step(row as int, self.height - 1);
        }
        let at: usize = (row * (y as u128) + 4 * (x as u128)) as usize;
        Some(
            Rgba8 {
                red: self.pixels[at],
                green: self.pixels[at + 1],
                blue: self.pixels[at + 2],
                alpha: self.pixels[at + 3],
            },
        )
    }
}

/// Reads the picture out of the mapped memory of the staging image: the
/// bytes of each row are taken from where the backend's layout puts the row,
/// and the padding between rows is left behind.
pub fn read_back(mapped: &[u8], layout: SubresourceLayout, extent: Extent) -> (result: Result<
    Frame,
    RenderError,
>)
    ensures
        match result {
            Ok(frame) => {
                &&& layout_fits(mapped@.len() as int, layout, extent)
                &&& frame@ == FrameView {
                    width: extent.width,
                    height: extent.height,
                    pixels: packed_rows(mapped@, layout, extent.width, extent.height as nat),
                }
            },
            Err(error) => {
                &&& error == RenderError::InvalidImageLayout
                &&& !layout_fits(mapped@.len() as int, layout, extent)
            },
        },
{
    let width_bytes: u128 = 4 * (extent.width as u128);
    let pitch: u128 = layout.row_pitch as u128;
    let offset: u128 = layout.offset as u128;
    let len: u128 = mapped.len() as u128;
    if pitch < width_bytes {
        return Err(RenderError::InvalidImageLayout);
    }
    if extent.height > 0 {
        let last_row: u128 = (extent.height - 1) as u128;
        proof {
            lemma_product_bounds(
                last_row as int,
                pitch as int,
                0xffff_ffff,
                0xffff_ffff_ffff_ffff,
            );
        }
        let last_start: u128 = offset + last_row * pitch;
        if last_start + width_bytes > len {
            assert(row_start(layout, extent.height - 1) + row_bytes(extent.width) > mapped@.len());
            return Err(RenderError::InvalidImageLayout);
        }
        assert forall|row: int| 0 <= row < extent.height implies #[trigger] row_start(layout, row)
            + row_bytes(extent.width) <= mapped@.len() by {
            lemma_product_bounds(row, pitch as int, last_row as int, pitch as int);
        }
    }
    assert(layout_fits(mapped@.len() as int, layout, extent));
    let mut pixels: Vec<u8> = Vec::new();
    let mut row: u32 = 0;
    while row < extent.height
        invariant
            row <= extent.height,
            width_bytes == row_bytes(extent.width),
            pitch == layout.row_pitch,
            offset == layout.offset,
            mapped@.len() <= usize::MAX,
            layout_fits(mapped@.len() as int, layout, extent),
            pixels@ == packed_rows(mapped@, layout, extent.width, row as nat),
        decreases extent.height - row,
    {
        proof {
            lemma_product_bounds(row as int, pitch as int, 0xffff_ffff, 0xffff_ffff_ffff_ffff);
            lemma_row_lies_inside(mapped@.len() as int, layout, extent, row as int);
        }
        let start: usize = (offset + (row as u128) * pitch) as usize;
        let count: usize = width_bytes as usize;
        assert(start == row_start(layout, row as int));
        assert(count == row_bytes(extent.width));
        let ghost before = pixels@;
        let mut k: usize = 0;
        while k < count
            invariant
                k <= count,
                start + count <= mapped@.len() <= usize::MAX,
                pixels@ == before + mapped@.subrange(start as int, start + k),
            decreases count - k,
        {
            pixels.push(mapped[start + k]);
            k = k + 1;
            assert(pixels@ =~= before + mapped@.subrange(start as int, start + k));
        }
        row = row + 1;
        assert(pixels@ == packed_rows(mapped@, layout, extent.width, row as nat));
    }
    proof {
        lemma_packed_rows_len(mapped@, layout, extent, extent.height as nat);
    }
    Ok(Frame { width: extent.width, height: extent.height, pixels })
}

/// Where a pixel of the packed picture comes from: the bytes of the pixel in
/// column `x` of row `y` are the four bytes that lie `4 * x` bytes into that
/// row of the mapped memory.
pub proof fn lemma_packed_pixel_source(
    mapped: Seq<u8>,
    layout: SubresourceLayout,
    extent: Extent,
    x: int,
    y: int,
    channel: int,
)
    requires
        layout_fits(mapped.len() as int, layout, extent),
        0 <= x < extent.width,
        0 <= y < extent.height,
        0 <= channel < BYTES_PER_PIXEL,
    ensures
        0 <= row_bytes(extent.width) * y + BYTES_PER_PIXEL * x + channel < packed_rows(
            mapped,
            layout,
            extent.width,
            extent.height as nat,
        ).len(),
        0 <= row_start(layout, y) + BYTES_PER_PIXEL * x + channel < mapped.len(),
        packed_rows(mapped, layout, extent.width, extent.height as nat)[row_bytes(extent.width) * y
            + BYTES_PER_PIXEL * x + channel] == mapped[row_start(layout, y) + BYTES_PER_PIXEL * x
            + channel],
{
    lemma_packed_byte_source(
        mapped,
        layout,
        extent,
        extent.height as nat,
        y,
        BYTES_PER_PIXEL * x + channel,
    );
}

proof fn lemma_packed_byte_source(
    mapped: Seq<u8>,
    layout: SubresourceLayout,
    extent: Extent,
    rows: nat,
    y: int,
    within: int,
)
    requires
        layout_fits(mapped.len() as int, layout, extent),
        rows <= extent.height,
        0 <= y < rows,
        0 <= within < row_bytes(extent.width),
    ensures
        0 <= row_bytes(extent.width) * y + within < packed_rows(
            mapped,
            layout,
            extent.width,
            rows,
        ).len(),
        0 <= row_start(layout, y) + within < mapped.len(),
        packed_rows(mapped, layout, extent.width, rows)[row_bytes(extent.width) * y + within]
            == mapped[row_start(layout, y) + within],
    decreases rows,
{
    let width_bytes = row_bytes(extent.width);
    let earlier = packed_rows(mapped, layout, extent.width, (rows - 1) as nat);
    let start = row_start(layout, rows - 1);
    lemma_packed_rows_len(mapped, layout, extent, rows);
    lemma_packed_rows_len(mapped, layout, extent, (rows - 1) as nat);
    lemma_row_lies_inside(mapped.len() as int, layout, extent, y);
    lemma_row_lies_inside(mapped.len() as int, layout, extent, rows - 1);
    lemma_product_step(width_bytes, rows - 1);
    lemma_product_bounds(width_bytes, y, width_bytes, rows - 1);
    if y < rows - 1 {
        lemma_packed_byte_source(mapped, layout, extent, (rows - 1) as nat, y, within);
    } else {
        assert(mapped.subrange(start, start + width_bytes)[within] == mapped[start + within]);
    }
}

} // verus!
