//! The output containers and what each asks of the pipeline.

use vstd::prelude::*;

verus! {

/// The container that a converted file is written in.
#[derive(Clone, Copy, Debug, PartialEq, Eq, Structural)]
pub enum OutputFormat {
    /// Lossy, eight bits a sample, with a quality setting.
    Jpeg,
    /// Lossless, sixteen bits a sample.
    Tiff,
    /// Lossless, sixteen bits a sample.
    Png,
}

/// The two lossless containers.
#[derive(Clone, Copy, Debug, PartialEq, Eq, Structural)]
pub enum Format16 {
    Tiff,
    Png,
}

/// The sample width that a decoder is asked for.
#[derive(Clone, Copy, Debug, PartialEq, Eq, Structural)]
pub enum BitDepth {
    Eight,
    Sixteen,
}

impl OutputFormat {
    /// The sample width that the format is encoded from: eight bits for the
    /// lossy format, sixteen for the lossless ones.
    pub open spec fn spec_bit_depth(&self) -> BitDepth {
        match self {
            OutputFormat::Jpeg => BitDepth::Eight,
            OutputFormat::Tiff => BitDepth::Sixteen,
            OutputFormat::Png => BitDepth::Sixteen,
        }
    }

    /// The extension of a file in this format, without the dot.
    pub open spec fn spec_extension(&self) -> Seq<char> {
        match self {
            OutputFormat::Jpeg => "jpg"@,
            OutputFormat::Tiff => "tiff"@,
            OutputFormat::Png => "png"@,
        }
    }

    /// The sample width that the format is encoded from.
    #[verifier::when_used_as_spec(spec_bit_depth)]
    pub fn bit_depth(&self) -> (d: BitDepth)
        ensures
            d == self.spec_bit_depth(),
    {
        match self {
            OutputFormat::Jpeg => BitDepth::Eight,
            OutputFormat::Tiff => BitDepth::Sixteen,
            OutputFormat::Png => BitDepth::Sixteen,
        }
    }

    /// The extension of a file in this format, without the dot.
    pub fn extension(&self) -> (e: &'static str)
        ensures
            e@ == self.spec_extension(),
    {
        match self {
            OutputFormat::Jpeg => "jpg",
            OutputFormat::Tiff => "tiff",
            OutputFormat::Png => "png",
        }
    }
}

} // verus!
