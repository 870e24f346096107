use vstd::prelude::*;
use vstd::string::StringExecFns;
use crate::error::{ErrorKind, TranscodeError};

verus! {

/// The container that a job asks for.
#[derive(Clone, Copy, Debug, PartialEq, Eq, Structural)]
pub enum OutputFormat {
    /// Write whatever container the destination's extension names.
    KeepOriginal,
    /// Written as `KeepOriginal` is: the destination's extension decides.
    Png,
    /// Written as `KeepOriginal` is: the destination's extension decides.
    Jpeg,
    /// Write WebP with the dedicated encoder, lossless at quality 100.
    Webp,
}

/// One image to resize, re-encode and write.
#[derive(Clone, Debug)]
pub struct ImageToSave {
    pub path: String,
    /// Full path of the file to write, name included.
    pub destination_path: String,
    pub target_width: u32,
    pub target_height: u32,
    pub output_format: OutputFormat,
    /// 1 to 100; 100 selects lossless WebP.
    pub quality: u8,
}

/// What a batch reports when every job was written.
#[derive(Clone, Copy, Debug, PartialEq, Eq, Structural)]
pub struct SaveResult {
    pub success: bool,
    pub saved_count: usize,
}

pub open spec fn zero_dimension_message() -> Seq<char> {
    "target width and height must be greater than zero"@
}

pub open spec fn quality_range_message() -> Seq<char> {
    "quality must be between 1 and 100"@
}

impl ImageToSave {
    pub open spec fn has_valid_dimensions(&self) -> bool {
        self.target_width > 0 && self.target_height > 0
    }

    pub open spec fn has_valid_quality(&self) -> bool {
        1 <= self.quality <= 100
    }

    pub open spec fn is_valid(&self) -> bool {
        self.has_valid_dimensions() && self.has_valid_quality()
    }

    /// The message of the configuration error that `validate` reports.
    pub open spec fn rejection(&self) -> Seq<char> {
        if !self.has_valid_dimensions() {
            zero_dimension_message()
        } else {
            quality_range_message()
        }
    }

    /// Accepts exactly the well-formed jobs; every other job is a
    /// configuration error, the dimensions being looked at first.
    pub fn validate(&self) -> (r: Result<(), TranscodeError>)
        ensures
            r is Ok <==> self.is_valid(),
            r matches Err(e) ==> e.kind == ErrorKind::Config && e.message@ == self.rejection(),
    {
        if self.target_width == 0 || self.target_height == 0 {
            Err(TranscodeError::new(
                ErrorKind::Config,
                String::from_str("target width and height must be greater than zero"),
            ))
        } else if self.quality < 1 || self.quality > 100 {
            Err(TranscodeError::new(
                ErrorKind::Config,
                String::from_str("quality must be between 1 and 100"),
            ))
        } else {
            Ok(())
        }
    }
}

} // verus!
