use vstd::prelude::*;

verus! {

/// The step of the pipeline at which a job failed.
#[derive(Clone, Copy, Debug, PartialEq, Eq, Structural)]
pub enum ErrorKind {
    /// The source could not be read or is not an image that can be parsed.
    Decode,
    /// The job itself is malformed: a target dimension or the quality is out of range.
    Config,
    /// A directory could not be created or the destination could not be written.
    Io,
    /// The codec could not serialise the pixel buffer.
    Encode,
}

/// Why a job, and with it the batch, failed.
#[derive(Clone, Debug)]
pub struct TranscodeError {
    pub kind: ErrorKind,
    pub message: String,
}

impl TranscodeError {
    pub fn new(kind: ErrorKind, message: String) -> (e: TranscodeError)
        ensures
            e.kind == kind,
            e.message == message,
    {
        TranscodeError { kind, message }
    }

    /// The text handed to the caller of a batch in place of a result.
    pub fn describe(&self) -> (text: String)
        ensures
            text@ == self.message@,
    {
        self.message.clone()
    }
}

} // verus!
