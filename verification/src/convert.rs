//! The conversion of one developed RAW file: decode at the sample width of
//! the format, build the buffer, resize, encode. Each stage that fails ends
//! the conversion with a failure that names it.

use vstd::prelude::*;
use imagepipe::Pipeline;
use crate::buffer::{construct_message, Decoded, Raster};
use crate::encode::{jpeg_stream, png_stream, tiff_written, write_16bit, write_jpeg, written};
use crate::format::{Format16, OutputFormat};
use crate::outcome::{Failure, Stage};
use crate::resize::{maybe_resize_16bit, maybe_resize_8bit, resized};

verus! {

/// The processing pipeline of the `imagepipe` crate, with the RAW file that
/// it was opened on.
#[verifier::external_type_specification]
#[verifier::external_body]
pub struct ExPipeline(Pipeline);

/// `Pipeline::output_8bit` without a cache: the image developed to 8-bit
/// sRGB, or the pipeline's message. Nothing is claimed of the result.
#[verifier::external_body]
fn develop_8bit(pipeline: &mut Pipeline) -> (r: Result<Decoded<u8>, String>) {
    pipeline.output_8bit(None).map(
        |img| Decoded { width: img.width, height: img.height, data: img.data },
    )
}

/// `Pipeline::output_16bit` without a cache: the image developed to 16-bit
/// sRGB, or the pipeline's message. Nothing is claimed of the result.
#[verifier::external_body]
fn develop_16bit(pipeline: &mut Pipeline) -> (r: Result<Decoded<u16>, String>) {
    pipeline.output_16bit(None).map(
        |img| Decoded { width: img.width, height: img.height, data: img.data },
    )
}

/// `r` is what the encode stage owes for a 16-bit image in the container
/// `fmt`: the encoder's file, for TIFF in one of the two byte orders, or a
/// failure at the stage `Encode` where the encoder refuses the image.
pub open spec fn written_16bit(
    img: Raster<u16>,
    fmt: Format16,
    r: Result<Vec<u8>, Failure>,
) -> bool {
    match fmt {
        Format16::Png => written(png_stream(img@.samples, img@.width, img@.height), r),
        Format16::Tiff => tiff_written(img@, r),
    }
}

/// `r` is what the lossy path owes for a decoder's answer:
/// - the decoder's error fails at the stage `Decode` with its message;
/// - data that does not make an image of the reported size fails at the
///   stage `BufferConstruct`;
/// - a failure of the resize stage is handed on;
/// - else `r` is the JPEG file of the resized image at `quality`, or a
///   failure at the stage `Encode` where the encoder refuses it.
pub open spec fn jpeg_converted(
    decoded: Result<Decoded<u8>, String>,
    quality: u8,
    resize: Option<u32>,
    r: Result<Vec<u8>, Failure>,
) -> bool {
    match decoded {
        Err(message) => r matches Err(f) && f.stage == Stage::Decode && f.message == message,
        Ok(data) => if !data.consistent() {
            r matches Err(f) && f.is(Stage::BufferConstruct, construct_message())
        } else {
            exists|mid: Result<Raster<u8>, Failure>| #[trigger]
                resized(data.raster(), resize, 1, mid) && match mid {
                    Ok(img) => written(
                        jpeg_stream(img@.samples, img@.width, img@.height, quality),
                        r,
                    ),
                    Err(f) => r == Err::<Vec<u8>, Failure>(f),
                }
        },
    }
}

/// `r` is what a lossless path owes for a decoder's answer: as
/// `jpeg_converted`, with the encoder of the container `fmt` and no quality.
pub open spec fn lossless_converted(
    decoded: Result<Decoded<u16>, String>,
    resize: Option<u32>,
    fmt: Format16,
    r: Result<Vec<u8>, Failure>,
) -> bool {
    match decoded {
        Err(message) => r matches Err(f) && f.stage == Stage::Decode && f.message == message,
        Ok(data) => if !data.consistent() {
            r matches Err(f) && f.is(Stage::BufferConstruct, construct_message())
        } else {
            exists|mid: Result<Raster<u16>, Failure>| #[trigger]
                resized(data.raster(), resize, 2, mid) && match mid {
                    Ok(img) => written_16bit(img, fmt, r),
                    Err(f) => r == Err::<Vec<u8>, Failure>(f),
                }
        },
    }
}

/// The lossy path from a decoder's answer on: builds the buffer, resizes it
/// and encodes it as a JPEG file at `quality`.
pub fn jpeg_from_decoded(decoded: Result<Decoded<u8>, String>, quality: u8, resize: Option<u32>) -> (r:
    Result<Vec<u8>, Failure>)
    ensures
        jpeg_converted(decoded, quality, resize, r),
{
    let data: Decoded<u8> = match decoded {
        Ok(data) => data,
        Err(message) => { return Err(Failure::new(Stage::Decode, message)); },
    };
    let img: Raster<u8> = match Raster::from_decoded(data) {
        Ok(img) => img,
        Err(f) => { return Err(f); },
    };
    let mid: Result<Raster<u8>, Failure> = maybe_resize_8bit(img, resize);
    assert(resized(data.raster(), resize, 1, mid));
    match mid {
        Ok(final_img) => write_jpeg(&final_img, quality),
        Err(f) => Err(f),
    }
}

/// A lossless path from a decoder's answer on: builds the buffer, resizes it
/// and encodes it in the container `fmt`.
pub fn lossless_from_decoded(
    decoded: Result<Decoded<u16>, String>,
    resize: Option<u32>,
    fmt: Format16,
) -> (r: Result<Vec<u8>, Failure>)
    ensures
        lossless_converted(decoded, resize, fmt, r),
{
    let data: Decoded<u16> = match decoded {
        Ok(data) => data,
        Err(message) => { return Err(Failure::new(Stage::Decode, message)); },
    };
    let img: Raster<u16> = match Raster::from_decoded(data) {
        Ok(img) => img,
        Err(f) => { return Err(f); },
    };
    let mid: Result<Raster<u16>, Failure> = maybe_resize_16bit(img, resize);
    assert(resized(data.raster(), resize, 2, mid));
    match mid {
        Ok(final_img) => write_16bit(&final_img, fmt),
        Err(f) => Err(f),
    }
}

/// Develops the file to 8 bits a sample and makes a JPEG file of it: for
/// whatever the pipeline answers, what `jpeg_converted` says.
pub fn encode_jpeg(pipeline: &mut Pipeline, quality: u8, resize: Option<u32>) -> (r: Result<
    Vec<u8>,
    Failure,
>)
    ensures
        exists|decoded: Result<Decoded<u8>, String>| #[trigger]
            jpeg_converted(decoded, quality, resize, r),
{
    let decoded: Result<Decoded<u8>, String> = develop_8bit(pipeline);
    let r: Result<Vec<u8>, Failure> = jpeg_from_decoded(decoded, quality, resize);
    assert(jpeg_converted(decoded, quality, resize, r));
    r
}

/// Develops the file to 16 bits a sample and makes a file of it in the
/// container `fmt`: for whatever the pipeline answers, what
/// `lossless_converted` says.
pub fn encode_16bit(pipeline: &mut Pipeline, resize: Option<u32>, fmt: Format16) -> (r: Result<
    Vec<u8>,
    Failure,
>)
    ensures
        exists|decoded: Result<Decoded<u16>, String>| #[trigger]
            lossless_converted(decoded, resize, fmt, r),
{
    let decoded: Result<Decoded<u16>, String> = develop_16bit(pipeline);
    let r: Result<Vec<u8>, Failure> = lossless_from_decoded(decoded, resize, fmt);
    assert(lossless_converted(decoded, resize, fmt, r));
    r
}

/// `r` is what converting to `format` owes for some answer of the decoder.
pub open spec fn converted(
    format: OutputFormat,
    quality: u8,
    resize: Option<u32>,
    r: Result<Vec<u8>, Failure>,
) -> bool {
    match format {
        OutputFormat::Jpeg => exists|decoded: Result<Decoded<u8>, String>| #[trigger]
            jpeg_converted(decoded, quality, resize, r),
        OutputFormat::Tiff => exists|decoded: Result<Decoded<u16>, String>| #[trigger]
            lossless_converted(decoded, resize, Format16::Tiff, r),
        OutputFormat::Png => exists|decoded: Result<Decoded<u16>, String>| #[trigger]
            lossless_converted(decoded, resize, Format16::Png, r),
    }
}

/// Converts one opened RAW file to the bytes of an output file in `format`:
/// eight bits a sample for the lossy format, sixteen for the lossless ones.
/// The quality counts for the lossy format alone. A failure names the stage:
/// `Decode`, `BufferConstruct`, `Resize` or `Encode`.
pub fn convert_arw(pipeline: &mut Pipeline, format: OutputFormat, quality: u8, resize: Option<u32>) -> (r:
    Result<Vec<u8>, Failure>)
    ensures
        converted(format, quality, resize, r),
        r matches Err(f) ==> f.stage != Stage::DirectoryCreate,
{
    match format {
        OutputFormat::Jpeg => encode_jpeg(pipeline, quality, resize),
        OutputFormat::Tiff => encode_16bit(pipeline, resize, Format16::Tiff),
        OutputFormat::Png => encode_16bit(pipeline, resize, Format16::Png),
    }
}

} // verus!
