//! Batch image transcoding: the decisions of a batch that decodes, resizes,
//! re-encodes and writes images, with the codecs of `image` and `webp`
//! behind contracts.

pub mod batch;
pub mod container;
pub mod decoded;
pub mod encoder;
pub mod error;
pub mod greeting;
pub mod job;
pub mod listing;
pub mod metadata;
pub mod paths;
pub mod raster;

pub use batch::{Action, Batch, Event};
pub use container::Container;
pub use decoded::DecodedImage;
pub use encoder::{encode, encode_webp};
pub use error::{ErrorKind, TranscodeError};
pub use greeting::greet;
pub use job::{ImageToSave, OutputFormat, SaveResult};
pub use listing::{list_directory, DirectoryEntry};
pub use metadata::{get_image_metadata, ImageMetadata};
pub use paths::{get_parent_directory, home_or_error};
pub use raster::PixelLayout;
