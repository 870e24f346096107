use vstd::prelude::*;
use crate::decoded::{decoded, DecodedImage};
use crate::error::{ErrorKind, TranscodeError};

verus! {

/// The size of an image in pixels and of its file in bytes.
#[derive(Clone, Copy, Debug, PartialEq, Eq, Structural)]
pub struct ImageMetadata {
    pub width: u32,
    pub height: u32,
    pub size: u64,
}

/// Describes the image file whose content is `bytes`: the width and height
/// it decodes to, read as the container that the extension of `path` names,
/// and the number of bytes it holds.
pub fn get_image_metadata(path: &str, bytes: &[u8]) -> (r: Result<ImageMetadata, TranscodeError>)
    ensures
        match decoded(path@, bytes@) {
            Some(grid) => r matches Ok(data) && data.width == grid.width && data.height
                == grid.height && data.size == bytes@.len(),
            None => r matches Err(e) && e.kind == ErrorKind::Decode,
        },
{
    match DecodedImage::decode(path, bytes) {
        Ok(img) => {
            Ok(ImageMetadata { width: img.width(), height: img.height(), size: bytes.len() as u64 })
        },
        Err(error) => Err(error),
    }
}

} // verus!
