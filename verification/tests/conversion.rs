use image::{DynamicImage, ImageBuffer, Rgb};
use imagepipe::{ImageSource, Pipeline};
use rawdog::buffer::Decoded;
use rawdog::convert::{
    convert_arw, encode_16bit, encode_jpeg, jpeg_from_decoded, lossless_from_decoded,
};
use rawdog::format::{Format16, OutputFormat};
use rawdog::job::{Action, ConversionRequest, Event, Job, Phase};
use rawdog::outcome::{ConversionOutcome, Failure, Stage};
use rawdog::path::{Component, FilePath};

/// A pipeline opened on a picture in memory instead of a file.
fn opened(width: u32, height: u32) -> Pipeline {
    let img: ImageBuffer<Rgb<u8>, Vec<u8>> =
        ImageBuffer::from_fn(width, height, |x, y| Rgb([(x * 5) as u8, (y * 9) as u8, 77]));
    Pipeline::new_from_source(ImageSource::Other(DynamicImage::ImageRgb8(img)))
        .expect("a picture in memory opens")
}

fn name(text: &str) -> FilePath {
    FilePath { components: vec![Component::Normal(text.to_string())] }
}

fn request(format: OutputFormat, max_long_edge: Option<u32>, overwrite: bool) -> ConversionRequest {
    ConversionRequest {
        input: name("shot.arw"),
        output: name("shot.out"),
        format,
        quality: 92,
        max_long_edge,
        overwrite,
    }
}

fn decoded_8bit(width: usize, height: usize) -> Decoded<u8> {
    Decoded { width, height, data: vec![128u8; width * height * 3] }
}

fn decoded_16bit(width: usize, height: usize) -> Decoded<u16> {
    Decoded { width, height, data: vec![30_000u16; width * height * 3] }
}

#[test]
fn decode_error_fails_at_decode_with_its_message() {
    let failure = jpeg_from_decoded(Err("corrupt sensor data".to_string()), 92, None)
        .expect_err("there is nothing to convert");
    assert_eq!(failure, Failure { stage: Stage::Decode, message: "corrupt sensor data".into() });
    let failure = lossless_from_decoded(Err("unreadable".to_string()), None, Format16::Png)
        .expect_err("there is nothing to convert");
    assert_eq!(failure, Failure { stage: Stage::Decode, message: "unreadable".into() });
}

#[test]
fn length_mismatch_fails_at_buffer_construct() {
    let short = Decoded { width: 4, height: 4, data: vec![0u8; 47] };
    let failure = jpeg_from_decoded(Ok(short), 92, None).expect_err("a sample is missing");
    assert_eq!(failure.stage, Stage::BufferConstruct);
    let long = Decoded { width: 4, height: 4, data: vec![0u16; 49] };
    let failure = lossless_from_decoded(Ok(long), Some(2), Format16::Tiff)
        .expect_err("there is a sample too many");
    assert_eq!(failure.stage, Stage::BufferConstruct);
}

#[test]
fn four_thousand_by_three_thousand_comes_out_at_one_thousand() {
    let bytes =
        jpeg_from_decoded(Ok(decoded_8bit(4000, 3000)), 92, Some(1000)).expect("it converts");
    let back = image::load_from_memory(&bytes).expect("it is a JPEG file");
    assert_eq!((back.width(), back.height()), (1000, 750));
}

#[test]
fn without_constraint_the_size_is_the_decoded_size() {
    let bytes = jpeg_from_decoded(Ok(decoded_8bit(123, 45)), 92, None).expect("it converts");
    let back = image::load_from_memory(&bytes).expect("it is a JPEG file");
    assert_eq!((back.width(), back.height()), (123, 45));
    let bytes = lossless_from_decoded(Ok(decoded_16bit(45, 123)), None, Format16::Png)
        .expect("it converts");
    let back = image::load_from_memory(&bytes).expect("it is a PNG file");
    assert_eq!((back.width(), back.height()), (45, 123));
}

#[test]
fn lossless_paths_scale_down_too() {
    for fmt in [Format16::Png, Format16::Tiff] {
        let bytes = lossless_from_decoded(Ok(decoded_16bit(60, 40)), Some(30), fmt)
            .expect("it converts");
        let back = image::load_from_memory(&bytes).expect("it is an image file").to_rgb16();
        assert_eq!((back.width(), back.height()), (30, 20));
        assert!(back.into_raw().iter().all(|s| (29_990..=30_010).contains(s)));
    }
}

#[test]
fn resize_failure_is_handed_on() {
    let empty = Decoded { width: 16_777_217, height: 0, data: Vec::<u8>::new() };
    let failure = jpeg_from_decoded(Ok(empty), 92, Some(5)).expect_err("the edge is too long");
    assert_eq!(failure.stage, Stage::Resize);
}

#[test]
fn encoder_refusal_fails_at_encode() {
    let failure =
        jpeg_from_decoded(Ok(decoded_8bit(0, 0)), 92, None).expect_err("nothing to encode");
    assert_eq!(failure.stage, Stage::Encode);
}

#[test]
fn encode_jpeg_develops_eight_bits() {
    let mut pipeline = opened(40, 20);
    let bytes = encode_jpeg(&mut pipeline, 95, Some(20)).expect("it converts");
    let back = image::load_from_memory(&bytes).expect("it is a JPEG file");
    assert_eq!((back.width(), back.height()), (20, 10));
    assert!(matches!(back, DynamicImage::ImageRgb8(_)));
}

#[test]
fn encode_16bit_develops_sixteen_bits() {
    let mut pipeline = opened(6, 4);
    let bytes = encode_16bit(&mut pipeline, None, Format16::Png).expect("it converts");
    let back = image::load_from_memory(&bytes).expect("it is a PNG file");
    assert!(matches!(back, DynamicImage::ImageRgb16(_)));
    let back = back.to_rgb16();
    assert_eq!((back.width(), back.height()), (6, 4));
    // Eight bits widened to sixteen: 77 becomes 77 * 257.
    assert_eq!(back.get_pixel(0, 0).0, [0, 0, 77 * 257]);
    assert_eq!(back.get_pixel(5, 3).0, [25 * 257, 27 * 257, 77 * 257]);
}

#[test]
fn convert_arw_picks_the_path_of_the_format() {
    let jpeg = convert_arw(&mut opened(16, 8), OutputFormat::Jpeg, 92, None).expect("converts");
    assert_eq!(&jpeg[..2], &[0xff, 0xd8]);
    let png = convert_arw(&mut opened(16, 8), OutputFormat::Png, 92, None).expect("converts");
    assert_eq!(&png[1..4], b"PNG");
    let tiff = convert_arw(&mut opened(16, 8), OutputFormat::Tiff, 92, None).expect("converts");
    assert!(&tiff[..2] == b"II" || &tiff[..2] == b"MM");
    for (bytes, sixteen) in [(jpeg, false), (png, true), (tiff, true)] {
        let back = image::load_from_memory(&bytes).expect("it is an image file");
        assert_eq!((back.width(), back.height()), (16, 8));
        assert_eq!(matches!(back, DynamicImage::ImageRgb16(_)), sixteen);
    }
}

#[test]
fn job_runs_the_stages_in_order() {
    let mut job = Job::new(request(OutputFormat::Jpeg, Some(8), false));
    assert_eq!(job.phase(), Phase::AwaitProbe);
    assert_eq!(job.advance(Event::Probed(false)), Action::CreateDirectory);
    assert_eq!(job.phase(), Phase::AwaitDirectory);
    assert_eq!(job.advance(Event::DirectoryCreated(Ok(()))), Action::OpenInput);
    assert_eq!(job.phase(), Phase::AwaitOpen);
    let bytes = match job.advance(Event::Opened(Ok(opened(16, 8)))) {
        Action::WriteOutput(bytes) => bytes,
        other => panic!("expected the bytes to write, got {other:?}"),
    };
    let back = image::load_from_memory(&bytes).expect("it is a JPEG file");
    assert_eq!((back.width(), back.height()), (8, 4));
    assert_eq!(job.phase(), Phase::AwaitWrite);
    assert_eq!(
        job.advance(Event::Written(Ok(()))),
        Action::Finish(ConversionOutcome::Success)
    );
    assert_eq!(job.phase(), Phase::Finished);
}

#[test]
fn job_keeps_its_request() {
    let mut job = Job::new(request(OutputFormat::Png, None, true));
    job.advance(Event::Probed(true));
    assert_eq!(job.request(), &request(OutputFormat::Png, None, true));
}

#[test]
fn existing_output_is_skipped_without_overwrite() {
    let mut job = Job::new(request(OutputFormat::Jpeg, None, false));
    assert_eq!(
        job.advance(Event::Probed(true)),
        Action::Finish(ConversionOutcome::Skipped)
    );
    assert_eq!(job.phase(), Phase::Finished);
}

#[test]
fn existing_output_is_converted_with_overwrite() {
    let mut job = Job::new(request(OutputFormat::Jpeg, None, true));
    assert_eq!(job.advance(Event::Probed(true)), Action::CreateDirectory);
    let mut job = Job::new(request(OutputFormat::Jpeg, None, true));
    assert_eq!(job.advance(Event::Probed(false)), Action::CreateDirectory);
}

#[test]
fn directory_failure_ends_the_job() {
    let mut job = Job::new(request(OutputFormat::Jpeg, None, false));
    job.advance(Event::Probed(false));
    let action = job.advance(Event::DirectoryCreated(Err("permission denied".to_string())));
    assert_eq!(
        action,
        Action::Finish(ConversionOutcome::Failed(Failure {
            stage: Stage::DirectoryCreate,
            message: "permission denied".into(),
        }))
    );
    assert_eq!(job.phase(), Phase::Finished);
}

#[test]
fn unreadable_input_fails_at_decode() {
    let mut job = Job::new(request(OutputFormat::Tiff, None, false));
    job.advance(Event::Probed(false));
    job.advance(Event::DirectoryCreated(Ok(())));
    let action = job.advance(Event::Opened(Err("not a RAW file".to_string())));
    assert_eq!(
        action,
        Action::Finish(ConversionOutcome::Failed(Failure {
            stage: Stage::Decode,
            message: "not a RAW file".into(),
        }))
    );
    assert_eq!(job.phase(), Phase::Finished);
}

#[test]
fn failed_write_fails_at_encode() {
    let mut job = Job::new(request(OutputFormat::Png, None, false));
    job.advance(Event::Probed(false));
    job.advance(Event::DirectoryCreated(Ok(())));
    job.advance(Event::Opened(Ok(opened(4, 4))));
    let action = job.advance(Event::Written(Err("disk full".to_string())));
    assert_eq!(
        action,
        Action::Finish(ConversionOutcome::Failed(Failure {
            stage: Stage::Encode,
            message: "disk full".into(),
        }))
    );
}

#[test]
fn job_expects_one_kind_of_event_at_a_time() {
    let mut job = Job::new(request(OutputFormat::Jpeg, None, false));
    assert!(job.expects(&Event::Probed(true)));
    assert!(!job.expects(&Event::DirectoryCreated(Ok(()))));
    assert!(!job.expects(&Event::Written(Ok(()))));
    job.advance(Event::Probed(false));
    assert!(job.expects(&Event::DirectoryCreated(Ok(()))));
    assert!(!job.expects(&Event::Probed(true)));
    job.advance(Event::DirectoryCreated(Ok(())));
    assert!(job.expects(&Event::Opened(Err(String::new()))));
    job.advance(Event::Opened(Ok(opened(2, 2))));
    assert!(job.expects(&Event::Written(Ok(()))));
    assert!(!job.expects(&Event::Opened(Err(String::new()))));
}

#[test]
fn finished_job_expects_nothing() {
    let mut job = Job::new(request(OutputFormat::Jpeg, None, false));
    job.advance(Event::Probed(true));
    assert!(!job.expects(&Event::Probed(true)));
    assert!(!job.expects(&Event::DirectoryCreated(Ok(()))));
    assert!(!job.expects(&Event::Opened(Err(String::new()))));
    assert!(!job.expects(&Event::Written(Ok(()))));
}
