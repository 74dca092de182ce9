//! Scaling an image down to a maximum long edge. The constraint is a
//! ceiling: an image that meets it is handed back as it is.

use vstd::prelude::*;
use vstd::string::*;
use image::imageops::FilterType;
use image::{ImageBuffer, Rgb};
use crate::buffer::{sample_count, PixelBuffer, Raster, RasterView};
use crate::outcome::{Failure, Stage};
use crate::scale::{lemma_scaled_edge_bounds, scale_edge, target_edge};

verus! {

/// The longest edge that the resampler is given: 2^24 pixels. Up to there a
/// single-precision number tells every sample position from the next.
pub const RESAMPLE_EDGE_LIMIT: u32 = 16777216;

/// The longer of the two edges.
pub open spec fn long_edge(width: u32, height: u32) -> u32 {
    if width >= height {
        width
    } else {
        height
    }
}

/// There is no constraint, or the image is within it.
pub open spec fn conforms(width: u32, height: u32, max_long_edge: Option<u32>) -> bool {
    match max_long_edge {
        None => true,
        Some(max_edge) => long_edge(width, height) <= max_edge,
    }
}

/// The size of the image after the resize stage: its own where it conforms,
/// else each edge scaled by `max_edge / long_edge`, rounded on its own, and
/// at least 1.
pub open spec fn resized_dimensions(width: u32, height: u32, max_long_edge: Option<u32>) -> (
    u32,
    u32,
) {
    if conforms(width, height, max_long_edge) {
        (width, height)
    } else {
        let max_edge: u32 = max_long_edge->0;
        let long: u32 = long_edge(width, height);
        (
            target_edge(width as int, max_edge as int, long as int) as u32,
            target_edge(height as int, max_edge as int, long as int) as u32,
        )
    }
}

/// The resampler can take the image: no edge is above the limit, and its
/// working buffer (four single-precision channels for each pixel of the old
/// width and the new height) and its result can be allocated.
pub open spec fn resample_fits(
    width: u32,
    height: u32,
    new_width: u32,
    new_height: u32,
    sample_bytes: int,
) -> bool {
    &&& width <= RESAMPLE_EDGE_LIMIT
    &&& height <= RESAMPLE_EDGE_LIMIT
    &&& new_width <= RESAMPLE_EDGE_LIMIT
    &&& new_height <= RESAMPLE_EDGE_LIMIT
    &&& 16 * (width * new_height) <= isize::MAX
    &&& sample_bytes * 3 * (new_width * new_height) <= isize::MAX
}

/// The message of a failure to resize.
pub open spec fn resize_message() -> Seq<char> {
    "Image is too large to be resized"@
}

/// The resize stage did to `before` what it owes: nothing where the image
/// conforms (the same size and the same samples come back), else an image of
/// the scaled size, or a failure at the stage `Resize` where the resampler
/// cannot take it.
pub open spec fn resized<S>(
    before: RasterView<S>,
    max_long_edge: Option<u32>,
    sample_bytes: int,
    r: Result<Raster<S>, Failure>,
) -> bool {
    let (new_width, new_height) = resized_dimensions(before.width, before.height, max_long_edge);
    if conforms(before.width, before.height, max_long_edge) {
        r matches Ok(after) && after@ == before
    } else if resample_fits(before.width, before.height, new_width, new_height, sample_bytes) {
        &&& r matches Ok(after)
        &&& after@.width == new_width
        &&& after@.height == new_height
        &&& after@.wf()
    } else {
        r matches Err(f) && f.is(Stage::Resize, resize_message())
    }
}

/// `resized` for a buffer of either sample width: the width stays.
pub open spec fn buffer_resized(
    before: PixelBuffer,
    max_long_edge: Option<u32>,
    r: Result<PixelBuffer, Failure>,
) -> bool {
    match before {
        PixelBuffer::Eight(img) => match r {
            Ok(PixelBuffer::Eight(after)) => resized(img@, max_long_edge, 1, Ok(after)),
            Ok(PixelBuffer::Sixteen(_)) => false,
            Err(f) => resized(img@, max_long_edge, 1, Err::<Raster<u8>, Failure>(f)),
        },
        PixelBuffer::Sixteen(img) => match r {
            Ok(PixelBuffer::Sixteen(after)) => resized(img@, max_long_edge, 2, Ok(after)),
            Ok(PixelBuffer::Eight(_)) => false,
            Err(f) => resized(img@, max_long_edge, 2, Err::<Raster<u16>, Failure>(f)),
        },
    }
}

/// Computes `resized_dimensions`.
pub fn resized_size(width: u32, height: u32, max_long_edge: Option<u32>) -> (r: (u32, u32))
    ensures
        r == resized_dimensions(width, height, max_long_edge),
        conforms(width, height, max_long_edge) ==> r == (width, height),
        1 <= r.0 || r.0 == width,
        1 <= r.1 || r.1 == height,
        max_long_edge matches Some(max_edge) ==> 1 <= max_edge ==> conforms(
            r.0,
            r.1,
            max_long_edge,
        ),
{
    let long: u32 = if width >= height {
        width
    } else {
        height
    };
    match max_long_edge {
        Some(max_edge) => {
            if long > max_edge {
                let w: u32 = scale_edge(width, max_edge, long);
                let h: u32 = scale_edge(height, max_edge, long);
                (
                    if w < 1 {
                        1
                    } else {
                        w
                    },
                    if h < 1 {
                        1
                    } else {
                        h
                    },
                )
            } else {
                (width, height)
            }
        },
        None => (width, height),
    }
}

/// Computes `resample_fits` for samples of one or two bytes.
fn can_resample(width: u32, height: u32, new_width: u32, new_height: u32, sample_bytes: u64) -> (b:
    bool)
    requires
        1 <= sample_bytes <= 2,
    ensures
        b == resample_fits(width, height, new_width, new_height, sample_bytes as int),
{
    if width > RESAMPLE_EDGE_LIMIT || height > RESAMPLE_EDGE_LIMIT || new_width
        > RESAMPLE_EDGE_LIMIT || new_height > RESAMPLE_EDGE_LIMIT {
        return false;
    }
    assert(width * new_height <= 16777216 * 16777216 && new_width * new_height <= 16777216
        * 16777216) by (nonlinear_arith)
        requires
            width <= 16777216,
            new_width <= 16777216,
            new_height <= 16777216,
    ;
    let work: u64 = 16 * (width as u64 * new_height as u64);
    let samples: u64 = 3 * (new_width as u64 * new_height as u64);
    let out: u64 = if sample_bytes == 1 {
        samples
    } else {
        2 * samples
    };
    assert(out == sample_bytes * 3 * (new_width * new_height)) by (nonlinear_arith)
        requires
            samples == 3 * (new_width * new_height),
            sample_bytes == 1 && out == samples || sample_bytes == 2 && out == 2 * samples,
    ;
    work <= isize::MAX as u64 && out <= isize::MAX as u64
}

/// `image::imageops::resize` with the filter `Lanczos3`, on 8-bit RGB
/// samples. Claimed: the result has the samples of an image of the new size.
/// Nothing is claimed of their values: the filter goes through the sine of
/// the platform.
#[verifier::external_body]
fn resample_8bit(width: u32, height: u32, samples: Vec<u8>, new_width: u32, new_height: u32) -> (out:
    Vec<u8>)
    requires
        samples@.len() == sample_count(width as int, height as int),
        resample_fits(width, height, new_width, new_height, 1),
    ensures
        out@.len() == sample_count(new_width as int, new_height as int),
{
    let img: ImageBuffer<Rgb<u8>, Vec<u8>> = ImageBuffer::from_raw(width, height, samples).unwrap();
    image::imageops::resize(&img, new_width, new_height, FilterType::Lanczos3).into_raw()
}

/// `image::imageops::resize` with the filter `Lanczos3`, on 16-bit RGB
/// samples. Claimed: the result has the samples of an image of the new size.
#[verifier::external_body]
fn resample_16bit(
    width: u32,
    height: u32,
    samples: Vec<u16>,
    new_width: u32,
    new_height: u32,
) -> (out: Vec<u16>)
    requires
        samples@.len() == sample_count(width as int, height as int),
        resample_fits(width, height, new_width, new_height, 2),
    ensures
        out@.len() == sample_count(new_width as int, new_height as int),
{
    let img: ImageBuffer<Rgb<u16>, Vec<u16>> = ImageBuffer::from_raw(
        width,
        height,
        samples,
    ).unwrap();
    image::imageops::resize(&img, new_width, new_height, FilterType::Lanczos3).into_raw()
}

/// The failure of the resize stage.
fn too_large() -> (f: Failure)
    ensures
        f.is(Stage::Resize, resize_message()),
{
    Failure::new(Stage::Resize, String::from_str("Image is too large to be resized"))
}

/// Scales an 8-bit image down so that its long edge is `resize`, where one
/// is given and the image exceeds it; never up.
pub fn maybe_resize_8bit(img: Raster<u8>, resize: Option<u32>) -> (r: Result<Raster<u8>, Failure>)
    ensures
        resized(img@, resize, 1, r),
{
    let width: u32 = img.width();
    let height: u32 = img.height();
    if fits(width, height, resize) {
        return Ok(img);
    }
    let (new_width, new_height) = resized_size(width, height, resize);
    if !can_resample(width, height, new_width, new_height, 1) {
        return Err(too_large());
    }
    let samples: Vec<u8> = resample_8bit(width, height, img.into_raw(), new_width, new_height);
    Ok(Raster::new(new_width, new_height, samples))
}

/// Scales a 16-bit image down so that its long edge is `resize`, where one
/// is given and the image exceeds it; never up.
pub fn maybe_resize_16bit(img: Raster<u16>, resize: Option<u32>) -> (r: Result<
    Raster<u16>,
    Failure,
>)
    ensures
        resized(img@, resize, 2, r),
{
    let width: u32 = img.width();
    let height: u32 = img.height();
    if fits(width, height, resize) {
        return Ok(img);
    }
    let (new_width, new_height) = resized_size(width, height, resize);
    if !can_resample(width, height, new_width, new_height, 2) {
        return Err(too_large());
    }
    let samples: Vec<u16> = resample_16bit(width, height, img.into_raw(), new_width, new_height);
    Ok(Raster::new(new_width, new_height, samples))
}

/// Computes `conforms`.
pub fn fits(width: u32, height: u32, max_long_edge: Option<u32>) -> (b: bool)
    ensures
        b == conforms(width, height, max_long_edge),
{
    match max_long_edge {
        None => true,
        Some(max_edge) => width <= max_edge && height <= max_edge,
    }
}

impl PixelBuffer {
    /// The resize stage: scales the buffer down to the maximum long edge,
    /// where one is given and the image exceeds it.
    pub fn resize(self, max_long_edge: Option<u32>) -> (r: Result<PixelBuffer, Failure>)
        ensures
            buffer_resized(self, max_long_edge, r),
    {
        match self {
            PixelBuffer::Eight(img) => match maybe_resize_8bit(img, max_long_edge) {
                Ok(after) => Ok(PixelBuffer::Eight(after)),
                Err(f) => Err(f),
            },
            PixelBuffer::Sixteen(img) => match maybe_resize_16bit(img, max_long_edge) {
                Ok(after) => Ok(PixelBuffer::Sixteen(after)),
                Err(f) => Err(f),
            },
        }
    }
}

/// Under a constraint of at least one pixel the resized image conforms: no
/// edge is above the constraint. Where the image was scaled, its long edge is
/// exactly the constraint, and no edge has grown.
pub proof fn lemma_resized_conforms(width: u32, height: u32, max_edge: u32)
    requires
        1 <= max_edge,
    ensures
        ({
            let (w, h) = resized_dimensions(width, height, Some(max_edge));
            &&& conforms(w, h, Some(max_edge))
            &&& !conforms(width, height, Some(max_edge)) ==> long_edge(w, h) == max_edge
            &&& w <= width || w == 1
            &&& h <= height || h == 1
        }),
{
    let long: u32 = long_edge(width, height);
    if long > max_edge {
        lemma_scaled_edge_bounds(width as int, max_edge as int, long as int);
        lemma_scaled_edge_bounds(height as int, max_edge as int, long as int);
    }
}

/// Resizing is idempotent: under a constraint other than zero, a second
/// resize of the result with the same constraint hands the result back, the
/// same size and the same samples.
pub proof fn lemma_resize_idempotent<S>(
    before: RasterView<S>,
    max_long_edge: Option<u32>,
    sample_bytes: int,
    once: Raster<S>,
    twice: Result<Raster<S>, Failure>,
)
    requires
        max_long_edge != Some(0u32),
        resized(before, max_long_edge, sample_bytes, Ok(once)),
        resized(once@, max_long_edge, sample_bytes, twice),
    ensures
        twice matches Ok(again) && again@ == once@,
{
    if let Some(max_edge) = max_long_edge {
        lemma_resized_conforms(before.width, before.height, max_edge);
    }
}

/// Without a constraint the buffer comes back as it went in.
pub proof fn lemma_unconstrained_identity<S>(
    before: RasterView<S>,
    sample_bytes: int,
    r: Result<Raster<S>, Failure>,
)
    requires
        resized(before, None, sample_bytes, r),
    ensures
        r matches Ok(after) && after@ == before,
{
}

} // verus!
