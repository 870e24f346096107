use vstd::prelude::*;
use vstd::string::StringExecFns;
use crate::decoded::{rgba8_samples, writes_for_path, DecodedImage};
use crate::error::{ErrorKind, TranscodeError};
use crate::job::{quality_range_message, OutputFormat};
use crate::raster::{rgba8_fits, Raster};

verus! {

/// `webp::WebPEncodingError`: the error code that libwebp fails with.
#[verifier::external_type_specification]
#[verifier::external_body]
pub struct ExWebPEncodingError(webp::WebPEncodingError);

/// The largest side that the WebP encoder takes.
pub const WEBP_MAX_SIDE: u32 = 16383;

/// The file that libwebp writes for `width` by `height` pixels of four 8-bit
/// samples each, in its lossless mode or its lossy one, at the level
/// `quality`; `None` where it gives the picture up.
pub uninterp spec fn webp_encoded(
    rgba: Seq<u8>,
    width: u32,
    height: u32,
    lossless: bool,
    quality: u8,
) -> Option<Seq<u8>>;

/// Calls `webp::Encoder::from_rgba` and `Encoder::encode_simple`, which
/// reports a failure of libwebp instead of panicking on it; `quality` is
/// handed over as the same number in the type that the encoder takes.
/// Trusted: whether a file comes back, and which, depends on the arguments
/// alone, want of memory aside. The bounds are those under which the encoder
/// neither panics nor reads past the samples.
#[verifier::external_body]
fn webp_encode(rgba: &Vec<u8>, width: u32, height: u32, lossless: bool, quality: u8) -> (r: Result<
    Vec<u8>,
    webp::WebPEncodingError,
>)
    requires
        1 <= width <= WEBP_MAX_SIDE,
        1 <= height <= WEBP_MAX_SIDE,
        rgba@.len() == width * height * 4,
        quality <= 100,
    ensures
        match r {
            Ok(file) => webp_encoded(rgba@, width, height, lossless, quality) == Some(file@),
            Err(_) => webp_encoded(rgba@, width, height, lossless, quality) is None,
        },
{
    let encoder = webp::Encoder::from_rgba(rgba, width, height);
    match encoder.encode_simple(lossless, quality.into()) {
        Ok(memory) => Ok(memory.to_vec()),
        Err(error) => Err(error),
    }
}

/// The level at which the lossless mode runs: there it trades time for
/// size and loses nothing.
pub const LOSSLESS_EFFORT: u8 = 75;

/// Quality 100 selects the lossless mode; every lower quality is lossy.
pub open spec fn is_lossless(quality: u8) -> bool {
    quality == 100
}

/// The level handed to the encoder: the quality itself where it is lossy.
pub open spec fn encoder_level(quality: u8) -> u8 {
    if is_lossless(quality) {
        LOSSLESS_EFFORT
    } else {
        quality
    }
}

/// The WebP file of `source` at `quality`, where the encoder writes one.
pub open spec fn webp_file(source: Raster, quality: u8) -> Option<Seq<u8>> {
    webp_encoded(
        rgba8_samples(source),
        source.width as u32,
        source.height as u32,
        is_lossless(quality),
        encoder_level(quality),
    )
}

/// Whether the WebP encoder can be handed `source` at all.
pub open spec fn webp_accepts(source: Raster) -> bool {
    1 <= source.width <= WEBP_MAX_SIDE && 1 <= source.height <= WEBP_MAX_SIDE
}

pub open spec fn webp_size_message() -> Seq<char> {
    "WebP takes images from 1 to 16383 pixels a side"@
}

pub open spec fn webp_failure_message() -> Seq<char> {
    "the WebP encoder could not encode the image"@
}

/// What the WebP branch returns for each answer of the encoder.
pub fn finish_webp(answer: Result<Vec<u8>, webp::WebPEncodingError>) -> (r: Result<
    Vec<u8>,
    TranscodeError,
>)
    ensures
        match answer {
            Ok(file) => r == Ok::<Vec<u8>, TranscodeError>(file),
            Err(_) => r matches Err(e) && e.kind == ErrorKind::Encode && e.message@
                == webp_failure_message(),
        },
{
    match answer {
        Ok(file) => Ok(file),
        Err(_) => Err(
            TranscodeError::new(
                ErrorKind::Encode,
                String::from_str("the WebP encoder could not encode the image"),
            ),
        ),
    }
}

/// What the WebP branch owes for `source` at `quality`: a configuration
/// error for a quality outside 1 to 100, an encode error for a grid that the
/// encoder cannot take or gives up, and otherwise the file.
pub open spec fn webp_outcome(source: Raster, quality: u8, r: Result<Vec<u8>, TranscodeError>) -> bool {
    if !(1 <= quality <= 100) {
        r matches Err(e) && e.kind == ErrorKind::Config && e.message@ == quality_range_message()
    } else if !webp_accepts(source) {
        r matches Err(e) && e.kind == ErrorKind::Encode && e.message@ == webp_size_message()
    } else {
        match webp_file(source, quality) {
            Some(file) => r matches Ok(bytes) && bytes@ == file,
            None => r matches Err(e) && e.kind == ErrorKind::Encode && e.message@
                == webp_failure_message(),
        }
    }
}

/// Encodes as WebP: lossless at quality 100, lossy at that quality below.
///
/// A quality outside 1 to 100 is a configuration error; an image that the
/// encoder cannot take, or that it gives up, is an encode error.
pub fn encode_webp(img: &DecodedImage, quality: u8) -> (r: Result<Vec<u8>, TranscodeError>)
    ensures
        webp_outcome(img@, quality, r),
{
    if quality < 1 || quality > 100 {
        return Err(
            TranscodeError::new(
                ErrorKind::Config,
                String::from_str("quality must be between 1 and 100"),
            ),
        );
    }
    let width = img.width();
    let height = img.height();
    if width < 1 || width > WEBP_MAX_SIDE || height < 1 || height > WEBP_MAX_SIDE {
        return Err(
            TranscodeError::new(
                ErrorKind::Encode,
                String::from_str("WebP takes images from 1 to 16383 pixels a side"),
            ),
        );
    }
    assert(rgba8_fits(width as nat, height as nat)) by (nonlinear_arith)
        requires
            width <= 16383,
            height <= 16383,
            isize::MAX >= 0x7fff_ffff,
    ;
    let rgba = img.to_rgba8();
    let answer = if quality == 100 {
        webp_encode(&rgba, width, height, true, LOSSLESS_EFFORT)
    } else {
        webp_encode(&rgba, width, height, false, quality)
    };
    finish_webp(answer)
}

/// The format encoder: WebP has its own branch; every other format is
/// written as the container that the extension of `destination` names, and
/// `quality` plays no part in it.
pub fn encode(img: &DecodedImage, destination: &str, format: OutputFormat, quality: u8) -> (r:
    Result<Vec<u8>, TranscodeError>)
    ensures
        format == OutputFormat::Webp ==> webp_outcome(img@, quality, r),
        format != OutputFormat::Webp ==> match r {
            Ok(file) => !img@.is_empty() && writes_for_path(img@, destination@, Some(file@)),
            Err(e) => e.kind == ErrorKind::Encode && (img@.is_empty() || writes_for_path(
                img@,
                destination@,
                None,
            )),
        },
{
    match format {
        OutputFormat::Webp => encode_webp(img, quality),
        _ => img.encode_for_path(destination),
    }
}

/// Quality 100, and no other, selects the lossless mode; every quality
/// below it is handed to the lossy mode as it is.
pub proof fn lemma_quality_boundary(source: Raster, quality: u8)
    ensures
        is_lossless(quality) <==> quality == 100,
        quality == 100 ==> webp_file(source, quality) == webp_encoded(
            rgba8_samples(source),
            source.width as u32,
            source.height as u32,
            true,
            LOSSLESS_EFFORT,
        ),
        quality != 100 ==> webp_file(source, quality) == webp_encoded(
            rgba8_samples(source),
            source.width as u32,
            source.height as u32,
            false,
            quality,
        ),
{
}

} // verus!
