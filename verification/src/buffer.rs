//! Interleaved RGB pixel buffers of a known size.

use vstd::prelude::*;
use vstd::string::*;
use crate::outcome::{Failure, Stage};

verus! {

/// Samples per pixel: red, green, blue.
pub const CHANNELS: usize = 3;

/// The number of samples in an image of `width` by `height` pixels.
pub open spec fn sample_count(width: int, height: int) -> int {
    CHANNELS * width * height
}

/// What a decoder hands over: the size it reports and the samples it made.
#[derive(Debug, PartialEq, Eq)]
pub struct Decoded<S> {
    pub width: usize,
    pub height: usize,
    pub data: Vec<S>,
}

impl<S> Decoded<S> {
    /// The samples are exactly those of an image of the reported size, and
    /// both edges fit in 32 bits.
    pub open spec fn consistent(self) -> bool {
        &&& self.width <= u32::MAX
        &&& self.height <= u32::MAX
        &&& self.data@.len() == sample_count(self.width as int, self.height as int)
    }

    /// The image that consistent data makes.
    pub open spec fn raster(self) -> RasterView<S> {
        RasterView { width: self.width as u32, height: self.height as u32, samples: self.data@ }
    }
}

/// The abstract value of a `Raster`.
pub struct RasterView<S> {
    pub width: u32,
    pub height: u32,
    pub samples: Seq<S>,
}

impl<S> RasterView<S> {
    /// There is one sample for each channel of each pixel.
    pub open spec fn wf(self) -> bool {
        self.samples.len() == sample_count(self.width as int, self.height as int)
    }
}

/// An image held as `width * height * 3` samples, row by row.
#[derive(Debug, PartialEq, Eq)]
pub struct Raster<S> {
    width: u32,
    height: u32,
    samples: Vec<S>,
}

impl<S> View for Raster<S> {
    type V = RasterView<S>;

    closed spec fn view(&self) -> RasterView<S> {
        RasterView { width: self.width, height: self.height, samples: self.samples@ }
    }
}

/// The message of a failure to build a buffer from decoded data.
pub open spec fn construct_message() -> Seq<char> {
    "Failed to construct image buffer from decoded data"@
}

/// Whether `samples` samples make an image of `width` by `height` pixels.
fn matches_size(width: u32, height: u32, samples: usize) -> (b: bool)
    ensures
        b == (samples == sample_count(width as int, height as int)),
{
    assert(width as u64 * height as u64 <= 0xffff_ffff * 0xffff_ffff) by (nonlinear_arith)
        requires
            width <= 0xffff_ffff,
            height <= 0xffff_ffff,
    ;
    let pixels: u64 = width as u64 * height as u64;
    assert(CHANNELS * (width as int) * (height as int) == 3 * (width * height)) by (nonlinear_arith);
    // Three samples a pixel: compare thirds, which cannot overflow.
    samples % 3 == 0 && (samples / 3) as u64 == pixels
}

impl<S> Raster<S> {
    #[verifier::type_invariant]
    spec fn sized(self) -> bool {
        self.samples@.len() == sample_count(self.width as int, self.height as int)
    }

    /// Makes an image of samples that are known to be those of the size.
    pub fn new(width: u32, height: u32, samples: Vec<S>) -> (img: Raster<S>)
        requires
            samples@.len() == sample_count(width as int, height as int),
        ensures
            img@ == (RasterView { width, height, samples: samples@ }),
            img@.wf(),
    {
        Raster { width, height, samples }
    }

    /// Makes an image of `samples`, if there are exactly as many as the size
    /// asks for: neither fewer nor more.
    pub fn from_raw(width: u32, height: u32, samples: Vec<S>) -> (r: Option<Raster<S>>)
        ensures
            r is Some <==> samples@.len() == sample_count(width as int, height as int),
            r matches Some(img) ==> img@ == (RasterView { width, height, samples: samples@ }),
            r matches Some(img) ==> img@.wf(),
    {
        if matches_size(width, height, samples.len()) {
            Some(Raster { width, height, samples })
        } else {
            None
        }
    }

    /// Makes an image of what a decoder handed over. A size that does not fit
    /// in 32 bits, or samples that are not exactly those of that size, fail
    /// at the stage `BufferConstruct`.
    pub fn from_decoded(decoded: Decoded<S>) -> (r: Result<Raster<S>, Failure>)
        ensures
            decoded.consistent() ==> (r matches Ok(img) && img@ == decoded.raster()),
            !decoded.consistent() ==> (r matches Err(f) && f.is(
                Stage::BufferConstruct,
                construct_message(),
            )),
    {
        if decoded.width <= u32::MAX as usize && decoded.height <= u32::MAX as usize {
            let width: u32 = decoded.width as u32;
            let height: u32 = decoded.height as u32;
            match Raster::from_raw(width, height, decoded.data) {
                Some(img) => { return Ok(img); },
                None => {},
            }
        }
        Err(
            Failure::new(
                Stage::BufferConstruct,
                String::from_str("Failed to construct image buffer from decoded data"),
            ),
        )
    }

    /// The width in pixels.
    pub fn width(&self) -> (w: u32)
        ensures
            w == self@.width,
            self@.wf(),
    {
        proof {
            use_type_invariant(self);
        }
        self.width
    }

    /// The height in pixels.
    pub fn height(&self) -> (h: u32)
        ensures
            h == self@.height,
            self@.wf(),
    {
        proof {
            use_type_invariant(self);
        }
        self.height
    }

    /// The samples, row by row, three to a pixel.
    pub fn samples(&self) -> (s: &Vec<S>)
        ensures
            s@ == self@.samples,
            self@.wf(),
    {
        proof {
            use_type_invariant(self);
        }
        &self.samples
    }

    /// Gives up the image for its samples.
    pub fn into_raw(self) -> (s: Vec<S>)
        ensures
            s@ == self@.samples,
            self@.wf(),
    {
        proof {
            use_type_invariant(&self);
        }
        self.samples
    }
}

/// A pixel buffer of either sample width.
#[derive(Debug, PartialEq, Eq)]
pub enum PixelBuffer {
    /// Eight bits a sample, as the lossy format takes them.
    Eight(Raster<u8>),
    /// Sixteen bits a sample, as the lossless formats take them.
    Sixteen(Raster<u16>),
}

impl PixelBuffer {
    /// The width in pixels.
    pub open spec fn spec_width(&self) -> u32 {
        match self {
            PixelBuffer::Eight(img) => img@.width,
            PixelBuffer::Sixteen(img) => img@.width,
        }
    }

    /// The height in pixels.
    pub open spec fn spec_height(&self) -> u32 {
        match self {
            PixelBuffer::Eight(img) => img@.height,
            PixelBuffer::Sixteen(img) => img@.height,
        }
    }

    /// The width in pixels.
    #[verifier::when_used_as_spec(spec_width)]
    pub fn width(&self) -> (w: u32)
        ensures
            w == self.spec_width(),
    {
        match self {
            PixelBuffer::Eight(img) => img.width(),
            PixelBuffer::Sixteen(img) => img.width(),
        }
    }

    /// The height in pixels.
    #[verifier::when_used_as_spec(spec_height)]
    pub fn height(&self) -> (h: u32)
        ensures
            h == self.spec_height(),
    {
        match self {
            PixelBuffer::Eight(img) => img.height(),
            PixelBuffer::Sixteen(img) => img.height(),
        }
    }
}

} // verus!
