//! Turning the bytes of an image file into a frame of RGBA pixels.

use vstd::prelude::*;

verus! {

/// Why the image decoder gave up, by the kind of error it reported.
#[derive(Clone, Copy, Debug, PartialEq, Eq, Structural)]
pub enum ImageFault {
    Decoding,
    Encoding,
    Parameter,
    Limits,
    Unsupported,
    Io,
}

/// Why an image cannot be shown.
#[derive(Clone, Copy, Debug, PartialEq, Eq, Structural)]
pub enum RenderError {
    /// The bytes are in no format the decoder supports.
    UnsupportedFormat,
    /// The bytes could not be decoded.
    DecodeFailure,
}

/// A decoded image: four bytes (red, green, blue, alpha) per pixel, row by
/// row, possibly followed by unused bytes.
pub struct RgbaImage {
    pub width: u32,
    pub height: u32,
    pub pixels: Vec<u8>,
}

/// A frame ready to be drawn: exactly four bytes per pixel.
pub struct Frame {
    pub width: usize,
    pub height: usize,
    pub rgba: Vec<u8>,
}

/// What the decoder makes of a file's bytes: width, height and RGBA pixel
/// bytes, or the kind of error it reports.
pub uninterp spec fn decoded_rgba(bytes: Seq<u8>) -> Result<(u32, u32, Seq<u8>), ImageFault>;

/// Relies on `image::load_from_memory`, which guesses the format from the
/// bytes and decodes them, and on `DynamicImage::into_rgba8`: the outcome
/// depends on the bytes alone, and every `ImageBuffer` holds at least four
/// bytes per pixel of an RGBA image (its constructors check that length).
#[verifier::external_body]
fn decode_rgba(bytes: &[u8]) -> (r: Result<RgbaImage, ImageFault>)
    ensures
        match r {
            Ok(img) => {
                &&& decoded_rgba(bytes@) == Ok::<(u32, u32, Seq<u8>), ImageFault>(
                    (img.width, img.height, img.pixels@),
                )
                &&& 4 * img.width * img.height <= img.pixels@.len()
            },
            Err(f) => decoded_rgba(bytes@) == Err::<(u32, u32, Seq<u8>), ImageFault>(f),
        },
{
    match image::load_from_memory(bytes) {
        Ok(img) => {
            let rgba = img.into_rgba8();
            Ok(RgbaImage { width: rgba.width(), height: rgba.height(), pixels: rgba.into_raw() })
        },
        Err(image::ImageError::Decoding(_)) => Err(ImageFault::Decoding),
        Err(image::ImageError::Encoding(_)) => Err(ImageFault::Encoding),
        Err(image::ImageError::Parameter(_)) => Err(ImageFault::Parameter),
        Err(image::ImageError::Limits(_)) => Err(ImageFault::Limits),
        Err(image::ImageError::Unsupported(_)) => Err(ImageFault::Unsupported),
        Err(image::ImageError::IoError(_)) => Err(ImageFault::Io),
    }
}

/// An unsupported format is reported as such; every other fault is a
/// decoding failure.
pub open spec fn render_error_of(f: ImageFault) -> RenderError {
    match f {
        ImageFault::Unsupported => RenderError::UnsupportedFormat,
        _ => RenderError::DecodeFailure,
    }
}

/// The frame made of a decoder outcome: the pixels cut to exactly four bytes
/// per pixel, or the error to report.
pub open spec fn frame_of(d: Result<(u32, u32, Seq<u8>), ImageFault>) -> Result<
    (nat, nat, Seq<u8>),
    RenderError,
> {
    match d {
        Ok((w, h, px)) => Ok((w as nat, h as nat, px.subrange(0, 4 * w * h))),
        Err(f) => Err(render_error_of(f)),
    }
}

/// A decoder outcome held in library values, as plain values.
pub open spec fn decoded_view(d: Result<RgbaImage, ImageFault>) -> Result<
    (u32, u32, Seq<u8>),
    ImageFault,
> {
    match d {
        Ok(img) => Ok((img.width, img.height, img.pixels@)),
        Err(f) => Err(f),
    }
}

/// A frame, or the error given instead, as plain values.
pub open spec fn frame_view(r: Result<Frame, RenderError>) -> Result<
    (nat, nat, Seq<u8>),
    RenderError,
> {
    match r {
        Ok(f) => Ok((f.width as nat, f.height as nat, f.rgba@)),
        Err(e) => Err(e),
    }
}

/// The error to report for a decoder fault.
pub fn render_error(f: ImageFault) -> (r: RenderError)
    ensures
        r == render_error_of(f),
{
    match f {
        ImageFault::Unsupported => RenderError::UnsupportedFormat,
        _ => RenderError::DecodeFailure,
    }
}

/// The frame for a decoder outcome.
pub fn frame_from_decoded(d: Result<RgbaImage, ImageFault>) -> (r: Result<Frame, RenderError>)
    requires
        d matches Ok(img) ==> 4 * img.width * img.height <= img.pixels@.len(),
    ensures
        frame_view(r) == frame_of(decoded_view(d)),
{
    match d {
        Ok(img) => {
            let RgbaImage { width, height, pixels } = img;
            // The buffer's length bounds the pixel count, so the products fit.
            let len = pixels.len();
            assert(4 * width * height <= len);
            assert((width as int) * (height as int) <= 4 * width * height) by (nonlinear_arith);
            assert(4 * ((width as int) * (height as int)) == 4 * width * height) by (nonlinear_arith);
            let area = (width as usize) * (height as usize);
            let mut rgba = pixels;
            rgba.truncate(4 * area);
            Ok(Frame { width: width as usize, height: height as usize, rgba })
        },
        Err(f) => Err(render_error(f)),
    }
}

/// Decodes the bytes of an image file into a frame.
pub fn decode_frame(bytes: &[u8]) -> (r: Result<Frame, RenderError>)
    ensures
        frame_view(r) == frame_of(decoded_rgba(bytes@)),
{
    frame_from_decoded(decode_rgba(bytes))
}

} // verus!
