//! Conversion of an interleaved frame buffer into three planes of samples.

use crate::color::{ChannelOrder, Rgba, Yuv};
use ffimage::iter::PixelsExt;
use vstd::prelude::*;

verus! {

/// Number of whole pixels in a buffer of interleaved 4-channel bytes.
pub open spec fn pixel_count(buffer: Seq<u8>) -> int {
    buffer.len() as int / 4
}

/// The `i`-th pixel of a buffer of interleaved 4-channel bytes.
pub open spec fn pixel_at(buffer: Seq<u8>, i: int) -> Seq<u8> {
    buffer.subrange(4 * i, 4 * i + 4)
}

/// The `i`-th pixel of a buffer after conversion to luma/chroma.
pub open spec fn converted_at(buffer: Seq<u8>, order: ChannelOrder, i: int) -> Yuv {
    crate::color::yuv_of(
        buffer[4 * i + order.red_index()],
        buffer[4 * i + order.green_index()],
        buffer[4 * i + order.blue_index()],
    )
}

/// The three planes of one frame: luma, blue-difference chroma and
/// red-difference chroma, each with one sample per pixel in row-major order.
#[derive(Debug)]
pub struct Planes {
    pub y: Vec<u8>,
    pub u: Vec<u8>,
    pub v: Vec<u8>,
}

impl Planes {
    /// All three planes hold the same number of samples.
    pub open spec fn well_formed(&self) -> bool {
        self.y@.len() == self.u@.len() && self.u@.len() == self.v@.len()
    }

    /// Number of samples in each plane.
    pub open spec fn sample_count(&self) -> int {
        self.y@.len() as int
    }

    /// The planes are the conversion of `buffer`: one sample per whole pixel
    /// and plane, in the order of the pixels.
    pub open spec fn is_conversion_of(&self, buffer: Seq<u8>, order: ChannelOrder) -> bool {
        &&& self.y@.len() == pixel_count(buffer)
        &&& self.u@.len() == pixel_count(buffer)
        &&& self.v@.len() == pixel_count(buffer)
        &&& forall|i: int|
            0 <= i < self.y@.len() ==> self.y@[i] == converted_at(buffer, order, i).y
        &&& forall|i: int|
            0 <= i < self.u@.len() ==> self.u@[i] == converted_at(buffer, order, i).u
        &&& forall|i: int|
            0 <= i < self.v@.len() ==> self.v@[i] == converted_at(buffer, order, i).v
    }

    /// Number of samples in the luma plane, which in well-formed planes is
    /// the number of samples in each plane.
    pub fn len(&self) -> (n: usize)
        ensures
            n == self.sample_count(),
            self.well_formed() ==> n == self.u@.len() && n == self.v@.len(),
    {
        self.y.len()
    }
}

/// Groups a byte stream into pixels of four bytes with the `pixels` adapter of
/// `ffimage::iter::PixelsExt`. The adapter reads four items at a time and
/// stops at the first group it cannot fill, so the result holds one array for
/// each whole group of four bytes, in order, and trailing bytes that do not
/// fill a group are left out.
#[verifier::external_body]
fn group_pixels(buffer: &[u8]) -> (pixels: Vec<[u8; 4]>)
    ensures
        pixels@.len() == pixel_count(buffer@),
        forall|i: int| 0 <= i < pixels@.len() ==> (#[trigger] pixels@[i])@ == pixel_at(buffer@, i),
{
    buffer.iter().copied().pixels::<[u8; 4]>().collect()
}

/// Converts an interleaved 4-channel frame buffer into its three planes.
///
/// Every whole pixel of the buffer gives one sample in each plane, at the
/// pixel's own position; the alpha channel is discarded and chroma is kept at
/// full resolution.
pub fn convert_frame(buffer: &[u8], order: ChannelOrder) -> (planes: Planes)
    ensures
        planes.well_formed(),
        planes.is_conversion_of(buffer@, order),
        planes.sample_count() == pixel_count(buffer@),
{
    let pixels = group_pixels(buffer);
    let count = pixels.len();
    let mut y: Vec<u8> = Vec::new();
    let mut u: Vec<u8> = Vec::new();
    let mut v: Vec<u8> = Vec::new();
    let mut i: usize = 0;
    while i < count
        invariant
            count == pixels@.len(),
            count == pixel_count(buffer@),
            0 <= i <= count,
            y@.len() == i,
            u@.len() == i,
            v@.len() == i,
            forall|k: int|
                0 <= k < pixels@.len() ==> (#[trigger] pixels@[k])@ == pixel_at(buffer@, k),
            forall|k: int| 0 <= k < i ==> y@[k] == converted_at(buffer@, order, k).y,
            forall|k: int| 0 <= k < i ==> u@[k] == converted_at(buffer@, order, k).u,
            forall|k: int| 0 <= k < i ==> v@[k] == converted_at(buffer@, order, k).v,
        decreases count - i,
    {
        let pixel = Rgba::from(pixels[i]);
        let yuv = pixel.into_yuv(order);
        proof {
            crate::color::channel_positions_distinct(order);
            assert(pixels@[i as int]@ == pixel_at(buffer@, i as int));
            assert(pixel.0@ == pixels@[i as int]@);
            assert(yuv == converted_at(buffer@, order, i as int));
        }
        y.push(yuv.y);
        u.push(yuv.u);
        v.push(yuv.v);
        i += 1;
    }
    Planes { y, u, v }
}

/// Position of column `column` of row `row` in a buffer whose rows are
/// `line_size` bytes apart.
pub open spec fn cell(row: int, column: int, line_size: int) -> int {
    row * line_size + column
}

/// The byte at column `column` of row `row` of a laid-out plane: the sample
/// of that position within a row, and `fill` behind the end of a row.
pub open spec fn laid_out(samples: Seq<u8>, row: int, column: int, width: int, fill: u8) -> u8 {
    if column < width {
        samples[cell(row, column, width)]
    } else {
        fill
    }
}

/// The buffer `rows` holds `height` rows of `width` samples each,
/// `line_size` bytes apart, with every byte between the end of a row and the
/// start of the next equal to `fill`.
pub open spec fn is_layout_of(
    rows: Seq<u8>,
    samples: Seq<u8>,
    width: int,
    height: int,
    line_size: int,
    fill: u8,
) -> bool {
    &&& rows.len() == height * line_size
    &&& forall|row: int, column: int|
        0 <= row < height && 0 <= column < line_size ==> rows[#[trigger] cell(
            row,
            column,
            line_size,
        )] == laid_out(samples, row, column, width, fill)
}

/// A plane of a native frame holds the samples of a frame at full
/// resolution: it has one line for each row, and its lines are at least as
/// long as a row.
pub fn plane_holds(width: u32, height: u32, line_size: usize, line_count: usize) -> (ok: bool)
    ensures
        ok == (line_count == height && line_size >= width),
{
    line_count as u128 == height as u128 && line_size as u128 >= width as u128
}

/// Cells are laid out row after row: a cell of an earlier row comes before
/// every cell of a later row, and within a buffer of `height` rows every cell
/// lies inside the buffer.
proof fn cells_are_ordered(row: int, column: int, later: int, line_size: int)
    by (nonlinear_arith)
    requires
        0 <= row < later,
        0 <= column < line_size,
    ensures
        0 <= cell(row, column, line_size) < cell(later, 0, line_size),
        0 <= row * line_size <= cell(row, column, line_size),
        cell(later, 0, line_size) == later * line_size,
        cell(later, 0, line_size) == line_size * later,
{
}

/// A row starts `line_size` bytes after the row before it.
proof fn rows_are_a_line_apart(row: int, line_size: int)
    by (nonlinear_arith)
    ensures
        cell(row + 1, 0, line_size) == cell(row, line_size, line_size),
        cell(row + 1, 0, line_size) == cell(row, 0, line_size) + line_size,
{
}

/// Lays the rows of one plane out for a native frame whose lines are
/// `line_size` bytes apart.
///
/// For `width * height` samples and lines no shorter than a row, the result
/// holds row after row, each followed by `line_size - width` bytes of `fill`.
/// There is no result where the number of samples is not `width * height`,
/// where a line is shorter than a row, or where the size of the result does
/// not fit.
pub fn rows_with_stride(
    samples: &[u8],
    width: usize,
    height: usize,
    line_size: usize,
    fill: u8,
) -> (rows: Option<Vec<u8>>)
    ensures
        rows.is_some() <==> samples@.len() == width * height && width <= line_size && height
            * line_size <= usize::MAX,
        rows matches Some(out) ==> is_layout_of(
            out@,
            samples@,
            width as int,
            height as int,
            line_size as int,
            fill,
        ),
{
    if width > line_size {
        return None;
    }
    if height.checked_mul(line_size).is_none() {
        return None;
    }
    assert(width * height <= height * line_size) by (nonlinear_arith)
        requires
            0 <= width <= line_size,
            0 <= height,
    ;
    let count: usize = width * height;
    if samples.len() != count {
        return None;
    }
    let mut out: Vec<u8> = Vec::new();
    let mut row: usize = 0;
    while row < height
        invariant
            0 <= row <= height,
            width <= line_size,
            samples@.len() == width * height,
            width * height <= usize::MAX,
            height * line_size <= usize::MAX,
            out@.len() == cell(row as int, 0, line_size as int),
            forall|r: int, c: int|
                0 <= r < row && 0 <= c < line_size ==> out@[#[trigger] cell(
                    r,
                    c,
                    line_size as int,
                )] == laid_out(samples@, r, c, width as int, fill),
        decreases height - row,
    {
        let ghost before = out@;
        let mut column: usize = 0;
        while column < line_size
            invariant
                0 <= row < height,
                0 <= column <= line_size,
                width <= line_size,
                samples@.len() == width * height,
                width * height <= usize::MAX,
                height * line_size <= usize::MAX,
                before.len() == cell(row as int, 0, line_size as int),
                out@.len() == cell(row as int, column as int, line_size as int),
                forall|k: int| 0 <= k < before.len() ==> out@[k] == before[k],
                forall|c: int|
                    0 <= c < column ==> out@[#[trigger] cell(row as int, c, line_size as int)]
                        == laid_out(samples@, row as int, c, width as int, fill),
            decreases line_size - column,
        {
            let byte = if column < width {
                proof {
                    cells_are_ordered(row as int, column as int, height as int, width as int);
                }
                samples[row * width + column]
            } else {
                fill
            };
            out.push(byte);
            column += 1;
        }
        proof {
            rows_are_a_line_apart(row as int, line_size as int);
            assert forall|r: int, c: int|
                0 <= r < row + 1 && 0 <= c < line_size implies out@[#[trigger] cell(
                r,
                c,
                line_size as int,
            )] == laid_out(samples@, r, c, width as int, fill) by {
                if r < row {
                    cells_are_ordered(r, c, row as int, line_size as int);
                    assert(out@[cell(r, c, line_size as int)] == before[cell(
                        r,
                        c,
                        line_size as int,
                    )]);
                }
            }
        }
        row += 1;
    }
    Some(out)
}

/// Every pixel of the buffer has the four channel bytes of `pixel`: each byte
/// of the buffer is the byte of `pixel` at the same channel position.
pub open spec fn uniform_buffer(buffer: Seq<u8>, pixel: Seq<u8>) -> bool {
    &&& pixel.len() == 4
    &&& forall|k: int| 0 <= k < buffer.len() ==> #[trigger] buffer[k] == pixel[k % 4]
}

/// The sample triple that every pixel of a uniform frame converts to.
pub open spec fn uniform_sample(pixel: Seq<u8>, order: ChannelOrder) -> Yuv {
    crate::color::yuv_of(
        pixel[order.red_index()],
        pixel[order.green_index()],
        pixel[order.blue_index()],
    )
}

/// In a uniform frame the pixel at any position converts to the one sample
/// triple of the frame's colour.
proof fn uniform_pixel_converts(buffer: Seq<u8>, pixel: Seq<u8>, order: ChannelOrder, i: int)
    requires
        uniform_buffer(buffer, pixel),
        0 <= i < pixel_count(buffer),
    ensures
        converted_at(buffer, order, i) == uniform_sample(pixel, order),
{
    crate::color::channel_positions_distinct(order);
    let r = order.red_index();
    let g = order.green_index();
    let b = order.blue_index();
    assert((4 * i + r) % 4 == r && (4 * i + g) % 4 == g && (4 * i + b) % 4 == b);
    assert(buffer[4 * i + r] == pixel[r]);
    assert(buffer[4 * i + g] == pixel[g]);
    assert(buffer[4 * i + b] == pixel[b]);
}

/// A frame in which every pixel has the same channel values converts to
/// planes that are each uniform: every sample of a plane is the one value the
/// transform gives for that pixel.
pub proof fn uniform_color_gives_uniform_planes(
    planes: Planes,
    buffer: Seq<u8>,
    pixel: Seq<u8>,
    order: ChannelOrder,
)
    requires
        planes.is_conversion_of(buffer, order),
        uniform_buffer(buffer, pixel),
    ensures
        forall|i: int| 0 <= i < planes.y@.len() ==> planes.y@[i] == uniform_sample(pixel, order).y,
        forall|i: int| 0 <= i < planes.u@.len() ==> planes.u@[i] == uniform_sample(pixel, order).u,
        forall|i: int| 0 <= i < planes.v@.len() ==> planes.v@[i] == uniform_sample(pixel, order).v,
{
    let sample = uniform_sample(pixel, order);
    assert forall|i: int| 0 <= i < pixel_count(buffer) implies converted_at(buffer, order, i)
        == sample by {
        uniform_pixel_converts(buffer, pixel, order, i);
    }
}

} // verus!
