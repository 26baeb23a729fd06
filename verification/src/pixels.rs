use crate::error::CaptureError;
use vstd::prelude::*;
use vstd::arithmetic::div_mod::lemma_fundamental_div_mod_converse;

verus! {

/// Offset, in a row-major image of `source_width` four-byte pixels, of the
/// pixel that lies `col` columns and `row` rows from the point `(x, y)`.
pub open spec fn source_offset(source_width: int, x: int, y: int, col: int, row: int) -> int {
    ((y + row) * source_width + (x + col)) * 4
}

/// The byte at `index`, or zero where `source` has no such byte.
pub open spec fn byte_or_zero(source: Seq<u8>, index: int) -> u8 {
    if 0 <= index < source.len() {
        source[index]
    } else {
        0u8
    }
}

/// Byte `i` of the crop: channel `i % 4` of the output pixel `i / 4`.
pub open spec fn cropped_byte(
    source: Seq<u8>,
    source_width: int,
    x: int,
    y: int,
    width: int,
    i: int,
) -> u8 {
    let pixel = i / 4;
    byte_or_zero(source, source_offset(source_width, x, y, pixel % width, pixel / width) + i % 4)
}

/// The rectangle of `width` by `height` pixels at `(x, y)`, cut from `source`.
/// Whatever the source does not cover reads as zero.
pub open spec fn cropped(
    source: Seq<u8>,
    source_width: int,
    x: int,
    y: int,
    width: int,
    height: int,
) -> Seq<u8> {
    Seq::new(
        (width * height * 4) as nat,
        |i: int| cropped_byte(source, source_width, x, y, width, i),
    )
}

/// Splits the index of an output byte into its row, column and channel.
pub proof fn lemma_output_index(width: int, row: int, col: int, channel: int)
    requires
        0 <= col < width,
        0 <= channel < 4,
    ensures
        ((row * width + col) * 4 + channel) / 4 == row * width + col,
        ((row * width + col) * 4 + channel) % 4 == channel,
        (row * width + col) / width == row,
        (row * width + col) % width == col,
{
    lemma_fundamental_div_mod_converse(
        (row * width + col) * 4 + channel,
        4,
        row * width + col,
        channel,
    );
    lemma_fundamental_div_mod_converse(row * width + col, width, row, col);
}

/// Cropping is total. Whatever the source holds, and however little, the
/// crop has `width * height * 4` bytes, and each of them is a byte of the
/// source or zero; of an empty source it is all zero.
pub proof fn lemma_crop_is_total(
    source: Seq<u8>,
    source_width: int,
    x: int,
    y: int,
    width: int,
    height: int,
)
    requires
        0 <= width,
        0 <= height,
    ensures
        cropped(source, source_width, x, y, width, height).len() == width * height * 4,
        forall|i: int|
            0 <= i < width * height * 4 ==> {
                let byte = #[trigger] cropped(source, source_width, x, y, width, height)[i];
                byte == 0 || source.contains(byte)
            },
        source.len() == 0 ==> forall|i: int|
            0 <= i < width * height * 4 ==> #[trigger] cropped(
                source,
                source_width,
                x,
                y,
                width,
                height,
            )[i] == 0,
{
    assert(0 <= width * height * 4) by (nonlinear_arith)
        requires
            0 <= width,
            0 <= height,
    ;
}

/// The crop, pixel by pixel: it has `width * height` pixels of four bytes,
/// and the pixel in column `col` of row `row` is the source's pixel at
/// `(x + col, y + row)`, byte for byte, with zero for each byte that the
/// source does not have. No source is too small for this.
pub proof fn lemma_cropped_pixel(
    source: Seq<u8>,
    source_width: int,
    x: int,
    y: int,
    width: int,
    height: int,
    row: int,
    col: int,
    channel: int,
)
    requires
        0 <= row < height,
        0 <= col < width,
        0 <= channel < 4,
    ensures
        cropped(source, source_width, x, y, width, height).len() == width * height * 4,
        0 <= (row * width + col) * 4 + channel < width * height * 4,
        cropped(source, source_width, x, y, width, height)[(row * width + col) * 4 + channel]
            == byte_or_zero(source, ((y + row) * source_width + (x + col)) * 4 + channel),
{
    lemma_output_index(width, row, col, channel);
    assert(0 <= row * width && row * width + width <= height * width) by (nonlinear_arith)
        requires
            0 <= row < height,
            0 <= width,
    ;
    assert(height * width * 4 == width * height * 4) by (nonlinear_arith);
}

proof fn lemma_offset_bounds(y: int, row: int, source_width: int)
    by (nonlinear_arith)
    requires
        -0x8000_0000 <= y < 0x8000_0000,
        0 <= row < 0x1_0000_0000,
        0 <= source_width < 0x1_0000_0000,
    ensures
        -0x1_0000_0000_0000_0000 <= (y + row) * source_width,
        (y + row) * source_width <= 0x2_0000_0000_0000_0000,
{
}

fn fetch(source: &[u8], index: i128) -> (b: u8)
    ensures
        b == byte_or_zero(source@, index as int),
{
    if 0 <= index && index < source.len() as i128 {
        source[index as usize]
    } else {
        0
    }
}

/// Cuts the rectangle of `width` by `height` pixels at `(x, y)` out of an
/// image of four-byte pixels, `source_width` of them to a row. The source may
/// be smaller than the rectangle, or miss it altogether.
pub fn crop(source: &[u8], source_width: u32, x: i32, y: i32, width: u32, height: u32) -> (out:
    Vec<u8>)
    requires
        width * height * 4 <= isize::MAX,
    ensures
        out@ == cropped(source@, source_width as int, x as int, y as int, width as int, height as int),
{
    let mut out: Vec<u8> = Vec::new();
    let mut row: u32 = 0;
    while row < height
        invariant
            row <= height,
            out@.len() == row * width * 4,
            forall|i: int|
                0 <= i < out@.len() ==> out@[i] == cropped_byte(
                    source@,
                    source_width as int,
                    x as int,
                    y as int,
                    width as int,
                    i,
                ),
        decreases height - row,
    {
        let mut col: u32 = 0;
        while col < width
            invariant
                row < height,
                col <= width,
                out@.len() == (row * width + col) * 4,
                forall|i: int|
                    0 <= i < out@.len() ==> out@[i] == cropped_byte(
                        source@,
                        source_width as int,
                        x as int,
                        y as int,
                        width as int,
                        i,
                    ),
            decreases width - col,
        {
            proof {
                lemma_offset_bounds(y as int, row as int, source_width as int);
            }
            let base: i128 = ((y as i128 + row as i128) * (source_width as i128) + (x as i128
                + col as i128)) * 4;
            let mut channel: u8 = 0;
            while channel < 4
                invariant
                    row < height,
                    col < width,
                    channel <= 4,
                    base == source_offset(
                        source_width as int,
                        x as int,
                        y as int,
                        col as int,
                        row as int,
                    ),
                    out@.len() == (row * width + col) * 4 + channel,
                    forall|i: int|
                        0 <= i < out@.len() ==> out@[i] == cropped_byte(
                            source@,
                            source_width as int,
                            x as int,
                            y as int,
                            width as int,
                            i,
                        ),
                decreases 4 - channel,
            {
                proof {
                    lemma_output_index(width as int, row as int, col as int, channel as int);
                }
                out.push(fetch(source, base + channel as i128));
                channel = channel + 1;
            }
            col = col + 1;
        }
        proof {
            assert((row * width + width) * 4 == (row + 1) * width * 4) by (nonlinear_arith);
        }
        row = row + 1;
    }
    proof {
        assert(height * width * 4 == width * height * 4) by (nonlinear_arith);
    }
    assert(out@ =~= cropped(
        source@,
        source_width as int,
        x as int,
        y as int,
        width as int,
        height as int,
    ));
    out
}

/// The order of the four bytes of a pixel.
#[derive(Clone, Copy, Debug, PartialEq, Eq, Structural)]
pub enum PixelLayout {
    Bgra,
    Rgba,
}

/// Captured pixels, four bytes each, with the size that the capture reports
/// and the number of bytes from one row to the next.
#[derive(Debug)]
pub struct PixelBuffer {
    pub layout: PixelLayout,
    pub width: u32,
    pub height: u32,
    pub stride: u64,
    pub bytes: Vec<u8>,
}

/// A `PixelBuffer`, with its bytes as a sequence.
pub struct PixelBufferView {
    pub layout: PixelLayout,
    pub width: u32,
    pub height: u32,
    pub stride: u64,
    pub bytes: Seq<u8>,
}

impl View for PixelBuffer {
    type V = PixelBufferView;

    open spec fn view(&self) -> PixelBufferView {
        PixelBufferView {
            layout: self.layout,
            width: self.width,
            height: self.height,
            stride: self.stride,
            bytes: self.bytes@,
        }
    }
}

/// The view of an image that may not be there.
pub open spec fn image_view(image: Option<Result<PixelBuffer, CaptureError>>) -> Option<
    Result<PixelBufferView, CaptureError>,
> {
    match image {
        Some(Ok(pixels)) => Some(Ok(pixels@)),
        Some(Err(e)) => Some(Err(e)),
        None => None,
    }
}

impl PixelBufferView {
    /// The buffer holds exactly `height` rows of `stride` bytes.
    pub open spec fn is_fully_populated(self) -> bool {
        self.bytes.len() == self.stride * self.height
    }
}

impl PixelBuffer {
    /// Whether the buffer holds exactly `height` rows of `stride` bytes.
    pub fn is_fully_populated(&self) -> (full: bool)
        ensures
            full == self@.is_fully_populated(),
    {
        assert(self.stride * self.height <= 0xffff_ffff_ffff_ffff * 0xffff_ffff) by (nonlinear_arith)
            requires
                0 <= self.stride <= 0xffff_ffff_ffff_ffff,
                0 <= self.height <= 0xffff_ffff,
        ;
        self.bytes.len() as u128 == self.stride as u128 * self.height as u128
    }
}

} // verus!
