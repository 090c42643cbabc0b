//! Helpers around a hardware video encoder: a fragmented-MP4 (CMAF) muxer for
//! H.264 access units and the length-prefixed NAL unit parsing that feeds it.
//!
//! Everything in this crate is verified with Verus. The platform calls that
//! produce access units live outside of it and hand over plain values.

#![allow(non_snake_case, non_camel_case_types, non_upper_case_globals)]

pub mod cm_sample_buffer;
pub mod codecs;
pub mod errors;
pub mod helpers;
