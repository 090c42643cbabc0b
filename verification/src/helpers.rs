//! Utilities built on top of the raw encoder interface.
//!
//! - [`cmaf_muxer`] - the CMAF muxer, over the box layouts of [`boxes`]
//! - [`nal_extractor`] - NAL unit extraction from encoded sample buffers
//! - [`PixelBufferConfig`] - configuration of pixel buffers
//! - [`run_for_duration`] / [`run_while`] - the decisions of run loop helpers
//!
//! The modules [`segment_structure`], [`fragment_policy`] and
//! [`avcc_round_trip`] hold what is proved about whole segments, whole
//! streams and the AVCC format.

pub mod avcc_round_trip;
pub mod be_bytes;
pub mod box_tree;
pub mod boxes;
pub mod cmaf_muxer;
pub mod decimal;
pub mod fragment_policy;
pub mod nal_extractor;
pub mod pixel_buffer;
pub mod runloop;
pub mod segment_structure;

pub use pixel_buffer::PixelBufferConfig;
pub use runloop::{run_for_duration, run_while};
