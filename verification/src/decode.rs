use crate::error::CaptureError;
use crate::pixels::{crop, cropped, lemma_crop_is_total};
use vstd::prelude::*;

verus! {

/// The error of the PNG decoder, `png::DecodingError`. It is handed
/// through; nothing is known of what it holds.
#[verifier::external_type_specification]
#[verifier::external_body]
pub struct ExDecodingError(png::DecodingError);

/// The first frame of a PNG file: its bytes, row after row, and the number
/// of pixels in a row. The bytes are in the colour type and bit depth of the
/// file, which the frame does not record.
pub struct Frame {
    pub width: u32,
    pub bytes: Vec<u8>,
}

/// What the PNG decoder makes of a file: the width and bytes of the first
/// frame, or nothing where the file is not a PNG image it accepts.
pub uninterp spec fn png_first_frame(data: Seq<u8>) -> Option<(u32, Seq<u8>)>;

/// Calls `png::Decoder::new(data).read_info()` and then `next_frame` once,
/// into a buffer of `output_buffer_size()` bytes that is cut down to the
/// frame's `buffer_size()`.
///
/// Trusted: the decoder's answer depends on the bytes of the file alone.
/// Nothing is claimed of what the frame holds. The buffer has the size that
/// the file's header asks for: a header that asks for more than the machine
/// has ends the process, as any failed allocation does.
#[verifier::external_body]
fn read_first_frame(data: &[u8]) -> (frame: Result<Frame, png::DecodingError>)
    ensures
        match frame {
            Ok(f) => png_first_frame(data@) == Some((f.width, f.bytes@)),
            Err(_) => png_first_frame(data@) is None,
        },
{
    let mut reader = png::Decoder::new(data).read_info()?;
    let mut bytes = vec![0u8; reader.output_buffer_size()];
    let info = reader.next_frame(&mut bytes)?;
    bytes.truncate(info.buffer_size());
    Ok(Frame { width: info.width, bytes })
}

/// Whether a crop of `width` by `height` pixels can be held in memory.
pub open spec fn crop_fits(width: int, height: int) -> bool {
    width * height * 4 <= isize::MAX
}

/// The pixels of the rectangle at `(x, y)` in the image that `data` encodes.
pub open spec fn decoded_crop(data: Seq<u8>, x: int, y: int, width: int, height: int) -> Result<
    Seq<u8>,
    CaptureError,
> {
    match png_first_frame(data) {
        Some((source_width, source)) => if crop_fits(width, height) {
            Ok(cropped(source, source_width as int, x, y, width, height))
        } else {
            Err(CaptureError::IoError)
        },
        None => Err(CaptureError::DecodeError),
    }
}

/// Decoding and cropping never goes wrong for want of source. Whatever the
/// size of the image that a file decodes to, and wherever the rectangle
/// lies, the result is the whole rectangle, `width * height * 4` bytes, as
/// long as the rectangle itself fits in memory; if it does not, the result is
/// `IoError`. A file that does not decode is a `DecodeError`.
pub proof fn lemma_decoded_crop_is_total(data: Seq<u8>, x: int, y: int, width: int, height: int)
    requires
        0 <= width,
        0 <= height,
    ensures
        png_first_frame(data) is None <==> decoded_crop(data, x, y, width, height) == Err::<
            Seq<u8>,
            CaptureError,
        >(CaptureError::DecodeError),
        png_first_frame(data) is Some && !crop_fits(width, height) <==> decoded_crop(
            data,
            x,
            y,
            width,
            height,
        ) == Err::<Seq<u8>, CaptureError>(CaptureError::IoError),
        png_first_frame(data) is Some && crop_fits(width, height) <==> decoded_crop(
            data,
            x,
            y,
            width,
            height,
        ) is Ok,
        decoded_crop(data, x, y, width, height) matches Ok(pixels) ==> pixels.len() == width
            * height * 4,
{
    match png_first_frame(data) {
        Some((source_width, source)) => {
            lemma_crop_is_total(source, source_width as int, x, y, width, height);
        },
        None => {},
    }
}

/// Decides `crop_fits`.
pub fn check_crop_fits(width: u32, height: u32) -> (fits: bool)
    ensures
        fits == crop_fits(width as int, height as int),
{
    assert(width * height <= 0xffff_ffff * 0xffff_ffff) by (nonlinear_arith)
        requires
            0 <= width <= 0xffff_ffff,
            0 <= height <= 0xffff_ffff,
    ;
    let area: u64 = width as u64 * height as u64;
    area <= (isize::MAX as u64) / 4
}

/// Decodes the first frame of the PNG file `data` and cuts the rectangle of
/// `width` by `height` pixels at `(x, y)` out of it. A malformed file is a
/// `DecodeError`; a rectangle too large to hold in memory is an `IoError`.
///
/// The frame's bytes are read four to a pixel, whatever the file holds: the
/// decoder hands them out in the file's own colour type and bit depth, and
/// nothing here converts them. Only for a file of eight-bit RGBA are the
/// four bytes of the result's pixels red, green, blue and alpha; for a file
/// of another kind (three bytes to a pixel, say) the offsets fall elsewhere
/// in its rows.
pub fn decode_and_crop(data: &[u8], x: i32, y: i32, width: u32, height: u32) -> (out: Result<
    Vec<u8>,
    CaptureError,
>)
    ensures
        match out {
            Ok(pixels) => decoded_crop(data@, x as int, y as int, width as int, height as int)
                == Ok::<Seq<u8>, CaptureError>(pixels@),
            Err(e) => decoded_crop(data@, x as int, y as int, width as int, height as int)
                == Err::<Seq<u8>, CaptureError>(e),
        },
{
    match read_first_frame(data) {
        Ok(frame) => {
            if check_crop_fits(width, height) {
                Ok(crop(frame.bytes.as_slice(), frame.width, x, y, width, height))
            } else {
                Err(CaptureError::IoError)
            }
        },
        Err(_) => Err(CaptureError::DecodeError),
    }
}

} // verus!
