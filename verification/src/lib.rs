//! Batch conversion of camera RAW files: the per-file pipeline (decode,
//! resize, encode) and the rules that drive a batch, with their contracts.

pub mod batch;
pub mod buffer;
pub mod convert;
pub mod encode;
pub mod enumerate;
pub mod format;
pub mod job;
pub mod order;
pub mod outcome;
pub mod path;
pub mod resize;
pub mod scale;
