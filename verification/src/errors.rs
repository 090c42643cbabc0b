//! VideoToolbox error codes and utilities.

use vstd::prelude::*;

verus! {

/// The status that the platform's calls return; 0 is success.
pub type OSStatus = i32;

pub const kVTPropertyNotSupportedErr: OSStatus = -12900;

pub const kVTPropertyReadOnlyErr: OSStatus = -12901;

pub const kVTParameterErr: OSStatus = -12902;

pub const kVTInvalidSessionErr: OSStatus = -12903;

pub const kVTAllocationFailedErr: OSStatus = -12904;

pub const kVTPixelTransferNotSupportedErr: OSStatus = -12905;

pub const kVTCouldNotFindVideoDecoderErr: OSStatus = -12906;

pub const kVTCouldNotCreateInstanceErr: OSStatus = -12907;

pub const kVTCouldNotFindVideoEncoderErr: OSStatus = -12908;

pub const kVTVideoDecoderBadDataErr: OSStatus = -12909;

pub const kVTVideoDecoderUnsupportedDataFormatErr: OSStatus = -12910;

pub const kVTVideoDecoderMalfunctionErr: OSStatus = -12911;

pub const kVTVideoEncoderMalfunctionErr: OSStatus = -12912;

pub const kVTVideoDecoderNotAvailableNowErr: OSStatus = -12913;

pub const kVTImageRotationNotSupportedErr: OSStatus = -12914;

pub const kVTVideoEncoderNotAvailableNowErr: OSStatus = -12915;

pub const kVTFormatDescriptionChangeNotSupportedErr: OSStatus = -12916;

pub const kVTInsufficientSourceColorDataErr: OSStatus = -12917;

pub const kVTCouldNotCreateColorCorrectionDataErr: OSStatus = -12918;

pub const kVTColorSyncTransformConvertFailedErr: OSStatus = -12919;

pub const kVTVideoDecoderAuthorizationErr: OSStatus = -12210;

pub const kVTVideoEncoderAuthorizationErr: OSStatus = -12211;

pub const kVTColorCorrectionPixelTransferFailedErr: OSStatus = -12212;

pub const kVTMultiPassStorageIdentifierMismatchErr: OSStatus = -12213;

pub const kVTMultiPassStorageInvalidErr: OSStatus = -12214;

pub const kVTFrameSiloInvalidTimeStampErr: OSStatus = -12215;

pub const kVTFrameSiloInvalidTimeRangeErr: OSStatus = -12216;

pub const kVTCouldNotFindTemporalFilterErr: OSStatus = -12217;

pub const kVTPixelTransferNotPermittedErr: OSStatus = -12218;

pub const kVTColorCorrectionImageRotationFailedErr: OSStatus = -12219;

pub const kVTVideoDecoderRemovedErr: OSStatus = -17690;

/// The human-readable message for a status.
pub open spec fn error_message(status: OSStatus) -> Seq<char> {
    if status == 0 {
        "Success"@
    } else if status == kVTPropertyNotSupportedErr {
        "Property not supported"@
    } else if status == kVTPropertyReadOnlyErr {
        "Property is read-only"@
    } else if status == kVTParameterErr {
        "Invalid parameter"@
    } else if status == kVTInvalidSessionErr {
        "Invalid session"@
    } else if status == kVTAllocationFailedErr {
        "Memory allocation failed"@
    } else if status == kVTPixelTransferNotSupportedErr {
        "Pixel transfer not supported"@
    } else if status == kVTCouldNotFindVideoDecoderErr {
        "Could not find video decoder"@
    } else if status == kVTCouldNotCreateInstanceErr {
        "Could not create instance"@
    } else if status == kVTCouldNotFindVideoEncoderErr {
        "Could not find video encoder"@
    } else if status == kVTVideoDecoderBadDataErr {
        "Video decoder received bad data"@
    } else if status == kVTVideoDecoderUnsupportedDataFormatErr {
        "Video decoder unsupported data format"@
    } else if status == kVTVideoDecoderMalfunctionErr {
        "Video decoder malfunction"@
    } else if status == kVTVideoEncoderMalfunctionErr {
        "Video encoder malfunction"@
    } else if status == kVTVideoDecoderNotAvailableNowErr {
        "Video decoder not available now"@
    } else if status == kVTImageRotationNotSupportedErr {
        "Image rotation not supported"@
    } else if status == kVTVideoEncoderNotAvailableNowErr {
        "Video encoder not available now"@
    } else if status == kVTFormatDescriptionChangeNotSupportedErr {
        "Format description change not supported"@
    } else if status == kVTInsufficientSourceColorDataErr {
        "Insufficient source color data"@
    } else if status == kVTCouldNotCreateColorCorrectionDataErr {
        "Could not create color correction data"@
    } else if status == kVTColorSyncTransformConvertFailedErr {
        "ColorSync transform convert failed"@
    } else if status == kVTVideoDecoderAuthorizationErr {
        "Video decoder authorization error"@
    } else if status == kVTVideoEncoderAuthorizationErr {
        "Video encoder authorization error"@
    } else if status == kVTColorCorrectionPixelTransferFailedErr {
        "Color correction pixel transfer failed"@
    } else if status == kVTMultiPassStorageIdentifierMismatchErr {
        "Multi-pass storage identifier mismatch"@
    } else if status == kVTMultiPassStorageInvalidErr {
        "Multi-pass storage invalid"@
    } else if status == kVTFrameSiloInvalidTimeStampErr {
        "Frame silo invalid timestamp"@
    } else if status == kVTFrameSiloInvalidTimeRangeErr {
        "Frame silo invalid time range"@
    } else if status == kVTCouldNotFindTemporalFilterErr {
        "Could not find temporal filter"@
    } else if status == kVTPixelTransferNotPermittedErr {
        "Pixel transfer not permitted"@
    } else if status == kVTColorCorrectionImageRotationFailedErr {
        "Color correction image rotation failed"@
    } else if status == kVTVideoDecoderRemovedErr {
        "Video decoder was removed"@
    } else {
        "Unknown error"@
    }
}

/// Convert a VideoToolbox error status to a human-readable message.
pub fn vt_error_to_string(status: OSStatus) -> (message: &'static str)
    ensures
        message@ == error_message(status),
{
    if status == 0 {
        "Success"
    } else if status == kVTPropertyNotSupportedErr {
        "Property not supported"
    } else if status == kVTPropertyReadOnlyErr {
        "Property is read-only"
    } else if status == kVTParameterErr {
        "Invalid parameter"
    } else if status == kVTInvalidSessionErr {
        "Invalid session"
    } else if status == kVTAllocationFailedErr {
        "Memory allocation failed"
    } else if status == kVTPixelTransferNotSupportedErr {
        "Pixel transfer not supported"
    } else if status == kVTCouldNotFindVideoDecoderErr {
        "Could not find video decoder"
    } else if status == kVTCouldNotCreateInstanceErr {
        "Could not create instance"
    } else if status == kVTCouldNotFindVideoEncoderErr {
        "Could not find video encoder"
    } else if status == kVTVideoDecoderBadDataErr {
        "Video decoder received bad data"
    } else if status == kVTVideoDecoderUnsupportedDataFormatErr {
        "Video decoder unsupported data format"
    } else if status == kVTVideoDecoderMalfunctionErr {
        "Video decoder malfunction"
    } else if status == kVTVideoEncoderMalfunctionErr {
        "Video encoder malfunction"
    } else if status == kVTVideoDecoderNotAvailableNowErr {
        "Video decoder not available now"
    } else if status == kVTImageRotationNotSupportedErr {
        "Image rotation not supported"
    } else if status == kVTVideoEncoderNotAvailableNowErr {
        "Video encoder not available now"
    } else if status == kVTFormatDescriptionChangeNotSupportedErr {
        "Format description change not supported"
    } else if status == kVTInsufficientSourceColorDataErr {
        "Insufficient source color data"
    } else if status == kVTCouldNotCreateColorCorrectionDataErr {
        "Could not create color correction data"
    } else if status == kVTColorSyncTransformConvertFailedErr {
        "ColorSync transform convert failed"
    } else if status == kVTVideoDecoderAuthorizationErr {
        "Video decoder authorization error"
    } else if status == kVTVideoEncoderAuthorizationErr {
        "Video encoder authorization error"
    } else if status == kVTColorCorrectionPixelTransferFailedErr {
        "Color correction pixel transfer failed"
    } else if status == kVTMultiPassStorageIdentifierMismatchErr {
        "Multi-pass storage identifier mismatch"
    } else if status == kVTMultiPassStorageInvalidErr {
        "Multi-pass storage invalid"
    } else if status == kVTFrameSiloInvalidTimeStampErr {
        "Frame silo invalid timestamp"
    } else if status == kVTFrameSiloInvalidTimeRangeErr {
        "Frame silo invalid time range"
    } else if status == kVTCouldNotFindTemporalFilterErr {
        "Could not find temporal filter"
    } else if status == kVTPixelTransferNotPermittedErr {
        "Pixel transfer not permitted"
    } else if status == kVTColorCorrectionImageRotationFailedErr {
        "Color correction image rotation failed"
    } else if status == kVTVideoDecoderRemovedErr {
        "Video decoder was removed"
    } else {
        "Unknown error"
    }
}

/// Check if an OSStatus indicates success.
#[inline]
pub fn is_success(status: OSStatus) -> (success: bool)
    ensures
        success == (status == 0),
{
    status == 0
}

/// Convert an OSStatus to a Result.
pub fn status_to_result(status: OSStatus) -> (result: Result<(), OSStatus>)
    ensures
        result == if status == 0 {
            Ok::<(), OSStatus>(())
        } else {
            Err::<(), OSStatus>(status)
        },
{
    if status == 0 {
        Ok(())
    } else {
        Err(status)
    }
}

} // verus!
