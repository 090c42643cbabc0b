use video_toolbox_sys::cm_sample_buffer::CMVideoDimensions;
use video_toolbox_sys::codecs::{audio, pixel, video};
use video_toolbox_sys::errors::{
    is_success, kVTCouldNotFindVideoEncoderErr, kVTInvalidSessionErr, kVTVideoDecoderRemovedErr,
    status_to_result, vt_error_to_string,
};

#[test]
fn test_video_dimensions_default() {
    let dims = CMVideoDimensions::default();
    assert_eq!(dims.width, 0);
    assert_eq!(dims.height, 0);
}

#[test]
fn test_video_codecs() {
    // Verify FourCC byte order (big-endian)
    assert_eq!(video::H264, u32::from_be_bytes(*b"avc1"));
    assert_eq!(video::HEVC, u32::from_be_bytes(*b"hvc1"));
    assert_eq!(video::MPEG4, u32::from_be_bytes(*b"mp4v"));
}

#[test]
fn test_pixel_formats() {
    assert_eq!(pixel::BGRA32, u32::from_be_bytes(*b"BGRA"));
}

#[test]
fn test_audio_codecs() {
    assert_eq!(audio::AAC, u32::from_be_bytes(*b"aac "));
}

#[test]
fn test_error_messages() {
    assert_eq!(vt_error_to_string(0), "Success");
    assert_eq!(vt_error_to_string(kVTInvalidSessionErr), "Invalid session");
    assert_eq!(
        vt_error_to_string(kVTCouldNotFindVideoEncoderErr),
        "Could not find video encoder"
    );
    assert_eq!(vt_error_to_string(-99999), "Unknown error");
}

#[test]
fn test_is_success() {
    assert!(is_success(0));
    assert!(!is_success(-12903));
}

#[test]
fn test_status_to_result() {
    assert!(status_to_result(0).is_ok());
    assert_eq!(status_to_result(-12903), Err(-12903));
}

#[test]
fn test_error_messages_cover_both_code_ranges() {
    assert_eq!(vt_error_to_string(-12900), "Property not supported");
    assert_eq!(vt_error_to_string(-12919), "ColorSync transform convert failed");
    assert_eq!(vt_error_to_string(-12210), "Video decoder authorization error");
    assert_eq!(vt_error_to_string(-12219), "Color correction image rotation failed");
    assert_eq!(vt_error_to_string(kVTVideoDecoderRemovedErr), "Video decoder was removed");
    assert_eq!(vt_error_to_string(1), "Unknown error");
    assert_eq!(vt_error_to_string(-12920), "Unknown error");
}

#[test]
fn test_remaining_codec_constants() {
    assert_eq!(video::PRORES_422, u32::from_be_bytes(*b"apcn"));
    assert_eq!(video::PRORES_4444, u32::from_be_bytes(*b"ap4h"));
    assert_eq!(video::JPEG, u32::from_be_bytes(*b"jpeg"));
    assert_eq!(pixel::ARGB32, 32);
    assert_eq!(pixel::RGB24, 24);
    assert_eq!(pixel::YUV420_BIPLANAR_VIDEO_RANGE, u32::from_be_bytes(*b"420v"));
    assert_eq!(pixel::YUV420_BIPLANAR_FULL_RANGE, u32::from_be_bytes(*b"420f"));
    assert_eq!(audio::LPCM, u32::from_be_bytes(*b"lpcm"));
    assert_eq!(audio::ALAC, u32::from_be_bytes(*b"alac"));
    assert_eq!(audio::MP3, u32::from_be_bytes(*b".mp3"));
    assert_eq!(audio::OPUS, u32::from_be_bytes(*b"opus"));
}
