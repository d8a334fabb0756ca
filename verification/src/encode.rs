use std::io::Write;
use vstd::prelude::*;
use crate::error::RenderError;
use crate::readback::{row_bytes, Frame};

verus! {

/// The error type of the `png` crate's encoder.
#[verifier::external_type_specification]
#[verifier::external_body]
pub struct ExEncodingError(png::EncodingError);

/// The bytes of the PNG file that the `png` crate's streaming encoder writes
/// for an RGBA image of eight bits a channel with the given size, chunk
/// buffer length and packed pixels; `None` where the encoder reports an error.
pub uninterp spec fn png_rgba8_stream(
    width: u32,
    height: u32,
    buffer_len: usize,
    pixels: Seq<u8>,
) -> Option<Seq<u8>>;

/// What encoding a picture gives: the file that the encoder writes for it
/// with one row's worth of chunk buffer, or the error if the picture is empty
/// or the encoder fails.
pub open spec fn encoding_of(width: u32, height: u32, pixels: Seq<u8>) -> Result<
    Seq<u8>,
    RenderError,
> {
    if width == 0 || height == 0 {
        Err(RenderError::EncodingFailed)
    } else {
        match png_rgba8_stream(width, height, row_bytes(width) as usize, pixels) {
            Some(file) => Ok(file),
            None => Err(RenderError::EncodingFailed),
        }
    }
}

/// `result` says the same as `expected`, with the file's bytes by their view.
pub open spec fn is_encoding(result: Result<Vec<u8>, RenderError>, expected: Result<
    Seq<u8>,
    RenderError,
>) -> bool {
    match result {
        Ok(file) => expected == Ok::<Seq<u8>, RenderError>(file@),
        Err(error) => expected == Err::<Seq<u8>, RenderError>(error),
    }
}

/// Runs the `png` crate's encoder into memory: `Encoder::new` over a byte
/// vector, `set_depth(BitDepth::Eight)`, `set_color(ColorType::RGBA)`,
/// `write_header`, `stream_writer_with_size(buffer_len)`, then the pixels
/// through `write_all` and `finish`; the file is complete once the writers
/// are dropped. The outcome depends on the arguments alone and is named by
/// `png_rgba8_stream`. The image has at least one pixel and the pixel bytes
/// are exactly its rows, so the encoder's row buffers are no larger than the
/// data it is given.
#[verifier::external_body]
fn png_encode_rgba8(width: u32, height: u32, buffer_len: usize, pixels: &Vec<u8>) -> (result:
    Result<Vec<u8>, png::EncodingError>)
    requires
        width > 0,
        height > 0,
        buffer_len == row_bytes(width),
        pixels@.len() == row_bytes(width) * height,
    ensures
        match result {
            Ok(file) => png_rgba8_stream(width, height, buffer_len, pixels@) == Some(file@),
            Err(_) => png_rgba8_stream(width, height, buffer_len, pixels@) is None,
        },
{
    let mut file: Vec<u8> = Vec::new();
    {
        let mut encoder = png::Encoder::new(&mut file, width, height);
        encoder.set_depth(png::BitDepth::Eight);
        encoder.set_color(png::ColorType::RGBA);
        let mut writer = encoder.write_header()?;
        let mut stream = writer.stream_writer_with_size(buffer_len);
        stream.write_all(pixels)?;
        stream.finish()?;
    }
    Ok(file)
}

/// Turns what the encoder returned into the library's result: the file as it
/// is, any error of the encoder as `EncodingFailed`.
pub fn encoded_file(outcome: Result<Vec<u8>, png::EncodingError>) -> (result: Result<
    Vec<u8>,
    RenderError,
>)
    ensures
        match outcome {
            Ok(file) => result == Ok::<Vec<u8>, RenderError>(file),
            Err(_) => result == Err::<Vec<u8>, RenderError>(RenderError::EncodingFailed),
        },
{
    match outcome {
        Ok(file) => Ok(file),
        Err(_) => Err(RenderError::EncodingFailed),
    }
}

/// Encodes the picture as a PNG file in memory. A picture without pixels is
/// refused; for any other the encoder is run and its outcome returned.
pub fn encode_frame(frame: &Frame) -> (result: Result<Vec<u8>, RenderError>)
    ensures
        is_encoding(result, encoding_of(frame@.width, frame@.height, frame@.pixels)),
{
    let width = frame.width();
    let height = frame.height();
    if width == 0 || height == 0 {
        return Err(RenderError::EncodingFailed);
    }
    let pixels = frame.pixels();
    let len: usize = pixels.len();
    assert(row_bytes(width) <= len) by (nonlinear_arith)
        requires
            len == row_bytes(width) * height,
            height >= 1,
            row_bytes(width) >= 0,
    ;
    let buffer_len: usize = 4 * (width as usize);
    encoded_file(png_encode_rgba8(width, height, buffer_len, pixels))
}

} // verus!
