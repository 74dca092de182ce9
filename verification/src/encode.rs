//! Serialising a pixel buffer into the bytes of an image file.

use vstd::prelude::*;
use vstd::string::*;
use image::codecs::jpeg::JpegEncoder;
use image::codecs::png::PngEncoder;
use image::codecs::tiff::TiffEncoder;
use image::{ImageBuffer, ImageError, Rgb};
use std::io::Cursor;
use crate::buffer::{sample_count, PixelBuffer, Raster, RasterView};
use crate::format::{Format16, OutputFormat};
use crate::outcome::{Failure, Stage};

verus! {

/// The error of the `image` crate's encoders.
#[verifier::external_type_specification]
#[verifier::external_body]
pub struct ExImageError(ImageError);

/// The largest edge that a JPEG frame header can hold.
pub const JPEG_EDGE_LIMIT: u32 = 65535;

/// The JPEG file that the `image` crate makes of 8-bit RGB samples at a
/// quality, or `None` where its encoder refuses them.
pub uninterp spec fn jpeg_stream(samples: Seq<u8>, width: u32, height: u32, quality: u8) -> Option<Seq<u8>>;

/// The PNG file that the `image` crate makes of 16-bit RGB samples, or `None`
/// where its encoder refuses them.
pub uninterp spec fn png_stream(samples: Seq<u16>, width: u32, height: u32) -> Option<Seq<u8>>;

/// The TIFF file that the `image` crate makes of 16-bit RGB samples on a
/// machine of the given byte order, or `None` where its encoder refuses
/// them. The encoder lays the file out in the byte order of the machine that
/// it runs on, and marks it so in the header.
pub uninterp spec fn tiff_stream(samples: Seq<u16>, width: u32, height: u32, big_endian: bool) -> Option<Seq<u8>>;

/// Both edges are within what a JPEG frame can hold, and neither is zero.
pub open spec fn jpeg_size_ok(width: u32, height: u32) -> bool {
    1 <= width <= JPEG_EDGE_LIMIT && 1 <= height <= JPEG_EDGE_LIMIT
}

/// `ImageBuffer::write_with_encoder` with a `JpegEncoder` made by
/// `new_with_quality`, writing into memory. Claimed: what comes back is
/// `jpeg_stream` of the arguments, the bytes on success and `None` on an
/// error; and an image with an edge of zero or above 65535 is an error,
/// which the encoder tests before it writes.
#[verifier::external_body]
fn jpeg_bytes(width: u32, height: u32, samples: &Vec<u8>, quality: u8) -> (r: Result<
    Vec<u8>,
    ImageError,
>)
    requires
        samples@.len() == sample_count(width as int, height as int),
    ensures
        r matches Ok(bytes) ==> jpeg_stream(samples@, width, height, quality) == Some(bytes@),
        r is Err ==> jpeg_stream(samples@, width, height, quality) is None,
        !jpeg_size_ok(width, height) ==> r is Err,
{
    let img: ImageBuffer<Rgb<u8>, &[u8]> = ImageBuffer::from_raw(
        width,
        height,
        samples.as_slice(),
    ).unwrap();
    let mut out: Vec<u8> = Vec::new();
    let done = img.write_with_encoder(JpegEncoder::new_with_quality(&mut out, quality));
    done.map(|_| out)
}

/// `ImageBuffer::write_with_encoder` with a `PngEncoder` made by `new`,
/// writing into memory. Claimed: what comes back is `png_stream` of the
/// arguments, the bytes on success and `None` on an error.
#[verifier::external_body]
fn png_bytes(width: u32, height: u32, samples: &Vec<u16>) -> (r: Result<Vec<u8>, ImageError>)
    requires
        samples@.len() == sample_count(width as int, height as int),
    ensures
        r matches Ok(bytes) ==> png_stream(samples@, width, height) == Some(bytes@),
        r is Err ==> png_stream(samples@, width, height) is None,
{
    let img: ImageBuffer<Rgb<u16>, &[u16]> = ImageBuffer::from_raw(
        width,
        height,
        samples.as_slice(),
    ).unwrap();
    let mut out: Vec<u8> = Vec::new();
    let done = img.write_with_encoder(PngEncoder::new(&mut out));
    done.map(|_| out)
}

/// `ImageBuffer::write_with_encoder` with a `TiffEncoder` made by `new`,
/// writing into memory. Claimed: what comes back is `tiff_stream` of the
/// arguments in one of the two byte orders, the bytes on success and `None`
/// on an error. Which byte order is not claimed: it is that of the machine.
/// And an image with an edge of zero is an error, which the encoder tests
/// before it writes the image.
#[verifier::external_body]
fn tiff_bytes(width: u32, height: u32, samples: &Vec<u16>) -> (r: Result<Vec<u8>, ImageError>)
    requires
        samples@.len() == sample_count(width as int, height as int),
    ensures
        exists|big_endian: bool|
            match #[trigger] tiff_stream(samples@, width, height, big_endian) {
                Some(bytes) => r matches Ok(b) && b@ == bytes,
                None => r is Err,
            },
        width == 0 || height == 0 ==> r is Err,
{
    let img: ImageBuffer<Rgb<u16>, &[u16]> = ImageBuffer::from_raw(
        width,
        height,
        samples.as_slice(),
    ).unwrap();
    let mut out: Cursor<Vec<u8>> = Cursor::new(Vec::new());
    let done = img.write_with_encoder(TiffEncoder::new(&mut out));
    done.map(|_| out.into_inner())
}

/// `ImageError`'s `to_string`: the error in words. Nothing is claimed of the
/// text.
#[verifier::external_body]
fn describe(error: &ImageError) -> (text: String) {
    error.to_string()
}

/// `r` is what the encode stage owes for an encoder's answer `stream`: the
/// bytes, or a failure at the stage `Encode`.
pub open spec fn written(stream: Option<Seq<u8>>, r: Result<Vec<u8>, Failure>) -> bool {
    match stream {
        Some(bytes) => r matches Ok(b) && b@ == bytes,
        None => r matches Err(f) && f.stage == Stage::Encode,
    }
}

/// Turns an encoder's answer into the outcome of the encode stage: the bytes
/// as they are, an error as a failure at the stage `Encode` with the
/// encoder's words.
pub fn encoded(answer: Result<Vec<u8>, ImageError>) -> (r: Result<Vec<u8>, Failure>)
    ensures
        answer matches Ok(bytes) ==> r == Ok::<Vec<u8>, Failure>(bytes),
        answer is Err ==> (r matches Err(f) && f.stage == Stage::Encode),
{
    match answer {
        Ok(bytes) => Ok(bytes),
        Err(error) => Err(Failure::new(Stage::Encode, describe(&error))),
    }
}

/// Encodes an 8-bit image as a JPEG file at `quality`. Fails at the stage
/// `Encode` exactly where the encoder refuses the image, as it does one with
/// an edge of zero or above 65535.
pub fn write_jpeg(img: &Raster<u8>, quality: u8) -> (r: Result<Vec<u8>, Failure>)
    ensures
        written(jpeg_stream(img@.samples, img@.width, img@.height, quality), r),
        !jpeg_size_ok(img@.width, img@.height) ==> r is Err,
{
    encoded(jpeg_bytes(img.width(), img.height(), img.samples(), quality))
}

/// Encodes a 16-bit image as a PNG file. Fails at the stage `Encode` exactly
/// where the encoder refuses the image.
pub fn write_png(img: &Raster<u16>) -> (r: Result<Vec<u8>, Failure>)
    ensures
        written(png_stream(img@.samples, img@.width, img@.height), r),
{
    encoded(png_bytes(img.width(), img.height(), img.samples()))
}

/// `r` is what the encode stage owes for a 16-bit image as a TIFF file: the
/// encoder's file in one of the two byte orders, or a failure at the stage
/// `Encode` where the encoder refuses the image, as it does one with an edge
/// of zero.
pub open spec fn tiff_written(img: RasterView<u16>, r: Result<Vec<u8>, Failure>) -> bool {
    &&& exists|big_endian: bool|
        written(#[trigger] tiff_stream(img.samples, img.width, img.height, big_endian), r)
    &&& img.width == 0 || img.height == 0 ==> r is Err
}

/// Encodes a 16-bit image as a TIFF file, in the byte order of the machine.
/// Fails at the stage `Encode` exactly where the encoder refuses the image,
/// as it does one with an edge of zero.
pub fn write_tiff(img: &Raster<u16>) -> (r: Result<Vec<u8>, Failure>)
    ensures
        tiff_written(img@, r),
{
    let answer: Result<Vec<u8>, ImageError> = tiff_bytes(
        img.width(),
        img.height(),
        img.samples(),
    );
    let r: Result<Vec<u8>, Failure> = encoded(answer);
    proof {
        let big_endian: bool = choose|big_endian: bool|
            match #[trigger] tiff_stream(img@.samples, img@.width, img@.height, big_endian) {
                Some(bytes) => answer matches Ok(b) && b@ == bytes,
                None => answer is Err,
            };
        assert(written(tiff_stream(img@.samples, img@.width, img@.height, big_endian), r));
    }
    r
}

/// Encodes a 16-bit image in one of the lossless containers.
pub fn write_16bit(img: &Raster<u16>, fmt: Format16) -> (r: Result<Vec<u8>, Failure>)
    ensures
        r matches Err(f) ==> f.stage == Stage::Encode,
        fmt == Format16::Png ==> written(png_stream(img@.samples, img@.width, img@.height), r),
        fmt == Format16::Tiff ==> tiff_written(img@, r),
{
    match fmt {
        Format16::Tiff => write_tiff(img),
        Format16::Png => write_png(img),
    }
}

/// The message of a failure to encode a buffer whose sample width is not the
/// one that the format takes.
pub open spec fn shape_message() -> Seq<char> {
    "Unsupported buffer shape for the output format"@
}

/// `r` is what encoding `buffer` as `format` owes: a failure at the stage
/// `Encode` where the sample width is not the format's, else the encoder's
/// answer.
pub open spec fn buffer_written(
    buffer: PixelBuffer,
    format: OutputFormat,
    quality: u8,
    r: Result<Vec<u8>, Failure>,
) -> bool {
    match (buffer, format) {
        (PixelBuffer::Eight(img), OutputFormat::Jpeg) => written(
            jpeg_stream(img@.samples, img@.width, img@.height, quality),
            r,
        ),
        (PixelBuffer::Sixteen(img), OutputFormat::Png) => written(
            png_stream(img@.samples, img@.width, img@.height),
            r,
        ),
        (PixelBuffer::Sixteen(img), OutputFormat::Tiff) => tiff_written(img@, r),
        _ => r matches Err(f) && f.is(Stage::Encode, shape_message()),
    }
}

impl PixelBuffer {
    /// The encode stage: serialises the buffer in `format`. The quality
    /// counts for the lossy format alone. A buffer of the wrong sample width
    /// for the format fails at the stage `Encode`.
    pub fn encode(&self, format: OutputFormat, quality: u8) -> (r: Result<Vec<u8>, Failure>)
        ensures
            buffer_written(*self, format, quality, r),
            r matches Err(f) ==> f.stage == Stage::Encode,
    {
        match self {
            PixelBuffer::Eight(img) => match format {
                OutputFormat::Jpeg => write_jpeg(img, quality),
                _ => Err(
                    Failure::new(
                        Stage::Encode,
                        String::from_str("Unsupported buffer shape for the output format"),
                    ),
                ),
            },
            PixelBuffer::Sixteen(img) => match format {
                OutputFormat::Png => write_png(img),
                OutputFormat::Tiff => write_tiff(img),
                OutputFormat::Jpeg => Err(
                    Failure::new(
                        Stage::Encode,
                        String::from_str("Unsupported buffer shape for the output format"),
                    ),
                ),
            },
        }
    }
}

} // verus!
