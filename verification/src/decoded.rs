use image::ImageFormat;
use vstd::prelude::*;
use vstd::string::StringExecFns;
use crate::container::Container;
use crate::error::{ErrorKind, TranscodeError};
use crate::job::zero_dimension_message;
use crate::raster::{check_resample_fits, resample_fits, rgba8_fits, PixelLayout, Raster};

verus! {

/// `image::DynamicImage`: a pixel buffer, held as it is.
#[verifier::external_type_specification]
#[verifier::external_body]
pub struct ExDynamicImage(image::DynamicImage);

/// `image::ImageError`: what a codec of the `image` crate fails with.
#[verifier::external_type_specification]
#[verifier::external_body]
pub struct ExImageError(image::ImageError);

/// The pixel grid that an `image::DynamicImage` holds: its width, its height,
/// the layout of its variant, and its samples as `DynamicImage::as_bytes`
/// gives them. The colour space that a buffer also records is left out:
/// every buffer held here comes from decoding or resampling, and both leave
/// it at sRGB.
pub uninterp spec fn raster_of(img: image::DynamicImage) -> Raster;

/// The container that the extension of `path` names for the `image` crate,
/// as `ImageFormat::from_path` finds it; `None` where it names none.
pub uninterp spec fn named_container(path: Seq<char>) -> Option<Container>;

/// The grid that the `image` crate decodes from `bytes` read as `container`;
/// `None` where the bytes do not parse as it.
pub uninterp spec fn decoded_as(bytes: Seq<u8>, container: Container) -> Option<Raster>;

/// The samples of `source` resampled to `width` by `height` with the
/// three-lobe Lanczos filter of the `image` crate.
pub uninterp spec fn lanczos3_samples(source: Raster, width: nat, height: nat) -> Seq<u8>;

/// The samples of `source` converted to four 8-bit samples per pixel, as
/// `DynamicImage::to_rgba8` converts them.
pub uninterp spec fn rgba8_samples(source: Raster) -> Seq<u8>;

/// The file that the `image` crate writes for `source` as `container`, for
/// a container whose encoder reads nothing but the pixels; `None` where the
/// encoder refuses the grid.
pub uninterp spec fn encoded_as(source: Raster, container: Container) -> Option<Seq<u8>>;

/// Calls `ImageFormat::from_path` and names the variant it finds. Trusted:
/// the outcome depends on the text of `path` alone. A variant that has no
/// name here is refused as a format that is not supported.
#[verifier::external_body]
fn container_named(path: &str) -> (r: Result<Container, image::ImageError>)
    ensures
        match r {
            Ok(container) => named_container(path@) == Some(container),
            Err(_) => named_container(path@) is None,
        },
{
    Ok(match ImageFormat::from_path(path)? {
        ImageFormat::Png => Container::Png, ImageFormat::Jpeg => Container::Jpeg,
        ImageFormat::Gif => Container::Gif, ImageFormat::WebP => Container::WebP,
        ImageFormat::Pnm => Container::Pnm, ImageFormat::Tiff => Container::Tiff,
        ImageFormat::Tga => Container::Tga, ImageFormat::Dds => Container::Dds,
        ImageFormat::Bmp => Container::Bmp, ImageFormat::Ico => Container::Ico,
        ImageFormat::Hdr => Container::Hdr, ImageFormat::OpenExr => Container::OpenExr,
        ImageFormat::Farbfeld => Container::Farbfeld, ImageFormat::Avif => Container::Avif,
        ImageFormat::Qoi => Container::Qoi,
        other => return Err(image::ImageError::Unsupported(
            image::error::ImageFormatHint::Exact(other).into(),
        )),
    })
}

/// Calls `image::load_from_memory_with_format`. Trusted: the outcome depends
/// on the bytes and the container alone, and a decoded buffer is filled
/// exactly.
#[verifier::external_body]
fn load_as(bytes: &[u8], container: Container) -> (r: Result<image::DynamicImage, image::ImageError>)
    ensures
        match r {
            Ok(img) => decoded_as(bytes@, container) == Some(raster_of(img)) && raster_of(img).wf(),
            Err(_) => decoded_as(bytes@, container) is None,
        },
{
    image::load_from_memory_with_format(bytes, match container {
        Container::Png => ImageFormat::Png, Container::Jpeg => ImageFormat::Jpeg,
        Container::Gif => ImageFormat::Gif, Container::WebP => ImageFormat::WebP,
        Container::Pnm => ImageFormat::Pnm, Container::Tiff => ImageFormat::Tiff,
        Container::Tga => ImageFormat::Tga, Container::Dds => ImageFormat::Dds,
        Container::Bmp => ImageFormat::Bmp, Container::Ico => ImageFormat::Ico,
        Container::Hdr => ImageFormat::Hdr, Container::OpenExr => ImageFormat::OpenExr,
        Container::Farbfeld => ImageFormat::Farbfeld, Container::Avif => ImageFormat::Avif,
        Container::Qoi => ImageFormat::Qoi,
    })
}

/// Calls `DynamicImage::width`: the width of the grid that the buffer holds.
#[verifier::external_body]
fn width_of(img: &image::DynamicImage) -> (w: u32)
    ensures
        w == raster_of(*img).width,
{
    img.width()
}

/// Calls `DynamicImage::height`: the height of the grid that the buffer
/// holds.
#[verifier::external_body]
fn height_of(img: &image::DynamicImage) -> (h: u32)
    ensures
        h == raster_of(*img).height,
{
    img.height()
}

/// Calls `DynamicImage::color` and names the variant it reports: the layout
/// of the grid that the buffer holds. Trusted: `color` reports one of the
/// ten variants named here, so a layout always comes back.
#[verifier::external_body]
fn layout_of(img: &image::DynamicImage) -> (layout: Option<PixelLayout>)
    ensures
        layout == Some(raster_of(*img).layout),
{
    Some(match img.color() {
        image::ColorType::L8 => PixelLayout::L8,
        image::ColorType::La8 => PixelLayout::La8,
        image::ColorType::Rgb8 => PixelLayout::Rgb8,
        image::ColorType::Rgba8 => PixelLayout::Rgba8,
        image::ColorType::L16 => PixelLayout::L16,
        image::ColorType::La16 => PixelLayout::La16,
        image::ColorType::Rgb16 => PixelLayout::Rgb16,
        image::ColorType::Rgba16 => PixelLayout::Rgba16,
        image::ColorType::Rgb32F => PixelLayout::Rgb32F,
        image::ColorType::Rgba32F => PixelLayout::Rgba32F,
        _ => return None,
    })
}

/// Calls `DynamicImage::resize_exact` with `FilterType::Lanczos3`. Trusted:
/// the result has the size asked for and the layout of the source, and its
/// samples depend on the source and the size alone. The bound keeps the
/// buffers it allocates within what a vector can hold.
#[verifier::external_body]
fn resize_lanczos3(img: &image::DynamicImage, width: u32, height: u32) -> (r: image::DynamicImage)
    requires
        raster_of(*img).wf(),
        resample_fits(raster_of(*img).width, width as nat, height as nat),
    ensures
        raster_of(r).wf(),
        raster_of(r).width == width,
        raster_of(r).height == height,
        raster_of(r).layout == raster_of(*img).layout,
        raster_of(r).samples == lanczos3_samples(raster_of(*img), width as nat, height as nat),
{
    img.resize_exact(width, height, image::imageops::FilterType::Lanczos3)
}

/// Calls `DynamicImage::to_rgba8` and `ImageBuffer::into_raw`. Trusted: the
/// samples depend on the grid alone, four to a pixel. The bound keeps the
/// buffer it allocates within what a vector can hold.
#[verifier::external_body]
fn rgba8_of(img: &image::DynamicImage) -> (samples: Vec<u8>)
    requires
        raster_of(*img).wf(),
        rgba8_fits(raster_of(*img).width, raster_of(*img).height),
    ensures
        samples@ == rgba8_samples(raster_of(*img)),
        samples@.len() == raster_of(*img).width * raster_of(*img).height * 4,
{
    img.to_rgba8().into_raw()
}

/// Calls `DynamicImage::write_to` on a buffer in memory. Trusted: for a
/// container whose encoder reads nothing but the pixels the outcome depends
/// on the grid and the container alone; of the files of the other
/// containers nothing is claimed.
#[verifier::external_body]
fn write_as(img: &image::DynamicImage, container: Container) -> (r: Result<
    Vec<u8>,
    image::ImageError,
>)
    requires
        raster_of(*img).wf(),
        !raster_of(*img).is_empty(),
    ensures
        container.is_reproducible() ==> match r {
            Ok(file) => encoded_as(raster_of(*img), container) == Some(file@),
            Err(_) => encoded_as(raster_of(*img), container) is None,
        },
{
    let mut file = std::io::Cursor::new(Vec::new());
    img.write_to(&mut file, match container {
        Container::Png => ImageFormat::Png, Container::Jpeg => ImageFormat::Jpeg,
        Container::Gif => ImageFormat::Gif, Container::WebP => ImageFormat::WebP,
        Container::Pnm => ImageFormat::Pnm, Container::Tiff => ImageFormat::Tiff,
        Container::Tga => ImageFormat::Tga, Container::Dds => ImageFormat::Dds,
        Container::Bmp => ImageFormat::Bmp, Container::Ico => ImageFormat::Ico,
        Container::Hdr => ImageFormat::Hdr, Container::OpenExr => ImageFormat::OpenExr,
        Container::Farbfeld => ImageFormat::Farbfeld, Container::Avif => ImageFormat::Avif,
        Container::Qoi => ImageFormat::Qoi,
    })?;
    Ok(file.into_inner())
}

/// Calls `to_string` on an `image::ImageError`: the text that its `Display`
/// writes. Nothing is claimed of the text.
#[verifier::external_body]
fn error_text(error: &image::ImageError) -> (text: String)
{
    error.to_string()
}

/// An image in memory: a pixel grid of the `image` crate whose samples fill
/// it exactly.
#[derive(Debug)]
pub struct DecodedImage {
    pixels: image::DynamicImage,
    layout: PixelLayout,
}

pub open spec fn oversize_message() -> Seq<char> {
    "target dimensions are too large to resample"@
}

pub open spec fn empty_image_message() -> Seq<char> {
    "an image without pixels cannot be encoded"@
}

/// The grid that `bytes` decode to, read as the container that the extension
/// of `path` names; `None` where it names none or the bytes do not parse.
pub open spec fn decoded(path: Seq<char>, bytes: Seq<u8>) -> Option<Raster> {
    match named_container(path) {
        Some(container) => decoded_as(bytes, container),
        None => None,
    }
}

/// What encoding `source` into the container that the extension of
/// `destination` names may give: `outcome` is the file, or `None` for a
/// failure. No extension, no file; a container whose encoder reads nothing
/// but the pixels gives its one outcome; of the others either may come.
pub open spec fn writes_for_path(
    source: Raster,
    destination: Seq<char>,
    outcome: Option<Seq<u8>>,
) -> bool {
    match named_container(destination) {
        None => outcome is None,
        Some(container) => container.is_reproducible() ==> outcome == encoded_as(source, container),
    }
}

/// The grid that resampling `source` to `width` by `height` gives.
pub open spec fn resized(source: Raster, width: nat, height: nat) -> Raster {
    Raster {
        width,
        height,
        layout: source.layout,
        samples: lanczos3_samples(source, width, height),
    }
}

impl View for DecodedImage {
    type V = Raster;

    closed spec fn view(&self) -> Raster {
        raster_of(self.pixels)
    }
}

impl DecodedImage {
    #[verifier::type_invariant]
    spec fn filled(self) -> bool {
        raster_of(self.pixels).wf() && self.layout == raster_of(self.pixels).layout
    }

    /// Decodes `bytes` as the container that the extension of `path` names.
    pub fn decode(path: &str, bytes: &[u8]) -> (r: Result<DecodedImage, TranscodeError>)
        ensures
            match r {
                Ok(img) => decoded(path@, bytes@) == Some(img@) && img@.wf(),
                Err(e) => decoded(path@, bytes@) is None && e.kind == ErrorKind::Decode,
            },
    {
        let container = match container_named(path) {
            Ok(container) => container,
            Err(error) => {
                return Err(TranscodeError::new(ErrorKind::Decode, error_text(&error)));
            },
        };
        match load_as(bytes, container) {
            Ok(pixels) => match layout_of(&pixels) {
                Some(layout) => Ok(DecodedImage { pixels, layout }),
                None => Err(
                    TranscodeError::new(
                        ErrorKind::Decode,
                        String::from_str("the pixel layout of the image is not known"),
                    ),
                ),
            },
            Err(error) => Err(TranscodeError::new(ErrorKind::Decode, error_text(&error))),
        }
    }

    pub fn width(&self) -> (w: u32)
        ensures
            w == self@.width,
    {
        width_of(&self.pixels)
    }

    pub fn height(&self) -> (h: u32)
        ensures
            h == self@.height,
    {
        height_of(&self.pixels)
    }

    pub fn layout(&self) -> (layout: PixelLayout)
        ensures
            layout == self@.layout,
    {
        proof {
            use_type_invariant(self);
        }
        self.layout
    }

    /// Resamples to exactly `width` by `height`, whatever the proportions of
    /// the source. A zero side, or a size whose buffers cannot exist, is a
    /// configuration error.
    pub fn resize_exact(&self, width: u32, height: u32) -> (r: Result<DecodedImage, TranscodeError>)
        ensures
            r is Ok <==> width > 0 && height > 0 && resample_fits(
                self@.width,
                width as nat,
                height as nat,
            ),
            r matches Ok(img) ==> img@ == resized(self@, width as nat, height as nat) && img@.wf(),
            r matches Err(e) ==> e.kind == ErrorKind::Config && e.message@ == (if width == 0
                || height == 0 {
                zero_dimension_message()
            } else {
                oversize_message()
            }),
    {
        proof {
            use_type_invariant(self);
        }
        if width == 0 || height == 0 {
            return Err(
                TranscodeError::new(
                    ErrorKind::Config,
                    String::from_str("target width and height must be greater than zero"),
                ),
            );
        }
        if !check_resample_fits(self.width(), width, height) {
            return Err(
                TranscodeError::new(
                    ErrorKind::Config,
                    String::from_str("target dimensions are too large to resample"),
                ),
            );
        }
        let pixels = resize_lanczos3(&self.pixels, width, height);
        Ok(DecodedImage { pixels, layout: self.layout })
    }

    /// The pixels as four 8-bit samples each, row by row.
    pub fn to_rgba8(&self) -> (samples: Vec<u8>)
        requires
            rgba8_fits(self@.width, self@.height),
        ensures
            samples@ == rgba8_samples(self@),
            samples@.len() == self@.width * self@.height * 4,
    {
        proof {
            use_type_invariant(self);
        }
        rgba8_of(&self.pixels)
    }

    /// Encodes into the container that the extension of `destination` names.
    pub fn encode_for_path(&self, destination: &str) -> (r: Result<Vec<u8>, TranscodeError>)
        ensures
            match r {
                Ok(file) => !self@.is_empty() && writes_for_path(
                    self@,
                    destination@,
                    Some(file@),
                ),
                Err(e) => e.kind == ErrorKind::Encode && (self@.is_empty() || writes_for_path(
                    self@,
                    destination@,
                    None,
                )) && (self@.is_empty() ==> e.message@ == empty_image_message()),
            },
    {
        proof {
            use_type_invariant(self);
        }
        if self.width() == 0 || self.height() == 0 {
            return Err(
                TranscodeError::new(
                    ErrorKind::Encode,
                    String::from_str("an image without pixels cannot be encoded"),
                ),
            );
        }
        let container = match container_named(destination) {
            Ok(container) => container,
            Err(error) => {
                return Err(TranscodeError::new(ErrorKind::Encode, error_text(&error)));
            },
        };
        match write_as(&self.pixels, container) {
            Ok(file) => Ok(file),
            Err(error) => Err(TranscodeError::new(ErrorKind::Encode, error_text(&error))),
        }
    }
}

} // verus!
