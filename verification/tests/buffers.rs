use rawdog::buffer::{Decoded, PixelBuffer, Raster};
use rawdog::outcome::Stage;
use rawdog::resize::{maybe_resize_16bit, maybe_resize_8bit};

fn flat_8bit(width: u32, height: u32, value: u8) -> Raster<u8> {
    let samples = vec![value; width as usize * height as usize * 3];
    Raster::from_raw(width, height, samples).expect("the samples are those of the size")
}

fn flat_16bit(width: u32, height: u32, value: u16) -> Raster<u16> {
    let samples = vec![value; width as usize * height as usize * 3];
    Raster::from_raw(width, height, samples).expect("the samples are those of the size")
}

#[test]
fn from_raw_takes_exactly_the_samples_of_the_size() {
    let img = Raster::from_raw(2, 3, vec![7u8; 18]).expect("18 samples make 2 by 3");
    assert_eq!(img.width(), 2);
    assert_eq!(img.height(), 3);
    assert_eq!(img.samples(), &vec![7u8; 18]);
    assert_eq!(img.into_raw(), vec![7u8; 18]);
}

#[test]
fn from_raw_refuses_too_few_samples() {
    assert!(Raster::from_raw(2, 3, vec![7u8; 17]).is_none());
    assert!(Raster::from_raw(2, 3, Vec::<u8>::new()).is_none());
}

#[test]
fn from_raw_refuses_too_many_samples() {
    assert!(Raster::from_raw(2, 3, vec![7u8; 19]).is_none());
    assert!(Raster::from_raw(2, 3, vec![7u16; 21]).is_none());
}

#[test]
fn from_raw_takes_an_empty_image() {
    let img = Raster::from_raw(0, 5, Vec::<u16>::new()).expect("no samples make 0 by 5");
    assert_eq!((img.width(), img.height()), (0, 5));
    assert!(Raster::from_raw(0, 5, vec![1u16]).is_none());
}

#[test]
fn from_raw_refuses_a_size_beyond_memory() {
    assert!(Raster::from_raw(u32::MAX, u32::MAX, vec![0u8; 3]).is_none());
}

#[test]
fn new_builds_what_from_raw_builds() {
    let a = Raster::new(1, 2, vec![1u8, 2, 3, 4, 5, 6]);
    let b = Raster::from_raw(1, 2, vec![1u8, 2, 3, 4, 5, 6]).expect("six samples make 1 by 2");
    assert_eq!(a, b);
}

#[test]
fn from_decoded_takes_consistent_data() {
    let decoded = Decoded { width: 4, height: 2, data: vec![9u16; 24] };
    let img = Raster::from_decoded(decoded).expect("24 samples make 4 by 2");
    assert_eq!((img.width(), img.height()), (4, 2));
    assert_eq!(img.into_raw(), vec![9u16; 24]);
}

#[test]
fn from_decoded_fails_on_a_length_mismatch() {
    for len in [0usize, 23, 25, 48] {
        let decoded = Decoded { width: 4, height: 2, data: vec![9u8; len] };
        let failure = Raster::from_decoded(decoded).expect_err("the length is wrong");
        assert_eq!(failure.stage, Stage::BufferConstruct);
        assert_eq!(failure.message, "Failed to construct image buffer from decoded data");
    }
}

#[test]
fn from_decoded_fails_on_a_size_beyond_32_bits() {
    let decoded = Decoded { width: usize::MAX, height: 0, data: Vec::<u8>::new() };
    let failure = Raster::from_decoded(decoded).expect_err("the width does not fit");
    assert_eq!(failure.stage, Stage::BufferConstruct);
}

#[test]
fn resize_without_constraint_is_the_identity() {
    let img = Raster::from_raw(3, 2, (0u8..18).collect()).expect("18 samples make 3 by 2");
    let out = maybe_resize_8bit(img, None).expect("nothing to do");
    assert_eq!((out.width(), out.height()), (3, 2));
    assert_eq!(out.into_raw(), (0u8..18).collect::<Vec<u8>>());
}

#[test]
fn resize_of_a_conforming_image_is_the_identity() {
    let img = Raster::from_raw(3, 2, (0u16..18).collect()).expect("18 samples make 3 by 2");
    let out = maybe_resize_16bit(img, Some(3)).expect("nothing to do");
    assert_eq!((out.width(), out.height()), (3, 2));
    assert_eq!(out.into_raw(), (0u16..18).collect::<Vec<u16>>());
}

#[test]
fn resize_scales_an_8bit_image_down() {
    let out = maybe_resize_8bit(flat_8bit(40, 30, 200), Some(10)).expect("it fits the resampler");
    assert_eq!((out.width(), out.height()), (10, 8));
    let samples = out.into_raw();
    assert_eq!(samples.len(), 10 * 8 * 3);
    // A flat image stays flat under any filter that sums to one.
    assert!(samples.iter().all(|s| (199..=201).contains(s)));
}

#[test]
fn resize_scales_a_16bit_image_down() {
    let out =
        maybe_resize_16bit(flat_16bit(30, 40, 40_000), Some(20)).expect("it fits the resampler");
    assert_eq!((out.width(), out.height()), (15, 20));
    let samples = out.into_raw();
    assert_eq!(samples.len(), 15 * 20 * 3);
    assert!(samples.iter().all(|s| (39_990..=40_010).contains(s)));
}

#[test]
fn resize_keeps_the_picture() {
    // The left half dark and the right half bright stay so.
    let mut samples = Vec::new();
    for _row in 0..16 {
        for col in 0..32 {
            let v = if col < 16 { 10u8 } else { 240u8 };
            samples.extend_from_slice(&[v, v, v]);
        }
    }
    let img = Raster::from_raw(32, 16, samples).expect("the samples are those of the size");
    let out = maybe_resize_8bit(img, Some(8)).expect("it fits the resampler");
    assert_eq!((out.width(), out.height()), (8, 4));
    let samples = out.into_raw();
    assert!(samples[0] < 60);
    assert!(samples[7 * 3] > 190);
}

#[test]
fn resize_is_idempotent() {
    let once = maybe_resize_8bit(flat_8bit(400, 300, 90), Some(100)).expect("it fits");
    assert_eq!((once.width(), once.height()), (100, 75));
    let copy = once.samples().clone();
    let twice = maybe_resize_8bit(once, Some(100)).expect("nothing to do");
    assert_eq!((twice.width(), twice.height()), (100, 75));
    assert_eq!(twice.into_raw(), copy);
}

#[test]
fn resize_clamps_a_vanishing_edge_to_one() {
    let out = maybe_resize_8bit(flat_8bit(400, 1, 50), Some(10)).expect("it fits");
    assert_eq!((out.width(), out.height()), (10, 1));
    assert_eq!(out.into_raw().len(), 30);
    let out = maybe_resize_16bit(flat_16bit(5, 5, 50), Some(0)).expect("it fits");
    assert_eq!((out.width(), out.height()), (1, 1));
    assert_eq!(out.into_raw().len(), 3);
}

#[test]
fn resize_of_an_empty_image_gives_the_clamped_size() {
    let img = Raster::from_raw(0, 40, Vec::<u8>::new()).expect("no samples make 0 by 40");
    let out = maybe_resize_8bit(img, Some(10)).expect("it fits");
    assert_eq!((out.width(), out.height()), (1, 10));
    assert_eq!(out.into_raw().len(), 30);
}

#[test]
fn resize_fails_on_an_edge_beyond_the_resampler() {
    let img = Raster::from_raw(16_777_217, 0, Vec::<u8>::new()).expect("no samples");
    let failure = maybe_resize_8bit(img, Some(10)).expect_err("the edge is too long");
    assert_eq!(failure.stage, Stage::Resize);
    assert_eq!(failure.message, "Image is too large to be resized");
}

#[test]
fn pixel_buffer_resize_keeps_the_sample_width() {
    let buffer = PixelBuffer::Eight(flat_8bit(40, 30, 1));
    assert_eq!((buffer.width(), buffer.height()), (40, 30));
    match buffer.resize(Some(20)).expect("it fits") {
        PixelBuffer::Eight(img) => assert_eq!((img.width(), img.height()), (20, 15)),
        PixelBuffer::Sixteen(_) => panic!("the sample width changed"),
    }
    let buffer = PixelBuffer::Sixteen(flat_16bit(40, 30, 1));
    match buffer.resize(None).expect("nothing to do") {
        PixelBuffer::Sixteen(img) => assert_eq!((img.width(), img.height()), (40, 30)),
        PixelBuffer::Eight(_) => panic!("the sample width changed"),
    }
}
