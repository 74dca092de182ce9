//! How one conversion ends: the stage at which it failed, or success.

use vstd::prelude::*;

verus! {

/// The stage of the conversion pipeline at which a file failed.
#[derive(Clone, Copy, Debug, PartialEq, Eq, Structural)]
pub enum Stage {
    /// The directory of the output file could not be created.
    DirectoryCreate,
    /// The input could not be read or developed into pixels.
    Decode,
    /// The decoded samples do not make an image of the reported size.
    BufferConstruct,
    /// The image could not be scaled down.
    Resize,
    /// The image could not be serialised or written.
    Encode,
}

/// A failed conversion: where it failed, and the underlying message.
#[derive(Debug, PartialEq, Eq)]
pub struct Failure {
    pub stage: Stage,
    pub message: String,
}

/// The terminal outcome of one input file.
#[derive(Debug, PartialEq, Eq)]
pub enum ConversionOutcome {
    /// The output file was written.
    Success,
    /// The output file exists and overwriting was not asked for.
    Skipped,
    /// The conversion failed at some stage.
    Failed(Failure),
}

impl Failure {
    /// `self` failed at `stage` with the message `text`.
    pub open spec fn is(self, stage: Stage, text: Seq<char>) -> bool {
        self.stage == stage && self.message@ == text
    }

    /// A failure at `stage` carrying `message`.
    pub fn new(stage: Stage, message: String) -> (f: Failure)
        ensures
            f.stage == stage,
            f.message == message,
    {
        Failure { stage, message }
    }
}

} // verus!
