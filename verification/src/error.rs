//! Why a request yields no image, and what the caller is told.

use vstd::prelude::*;

verus! {

/// The reasons for which a request ends without an image.
#[derive(Clone, Copy, Debug, PartialEq, Eq, Structural)]
pub enum ApiError {
    /// No field of the request yields a payload; a postal address that
    /// could not be resolved counts as none.
    MissingPayload,
    /// The payload fits no QR symbol.
    QrEncodingFailure,
    /// The raster image could not be written out as PNG.
    ImageSerializationFailure,
}

/// Status of a reply that carries an image.
pub const STATUS_OK: u16 = 200;

/// Status of a reply to a request that cannot be served as it stands.
pub const STATUS_BAD_REQUEST: u16 = 400;

/// Status of a reply to a request that failed on this side.
pub const STATUS_INTERNAL_SERVER_ERROR: u16 = 500;

/// Told to the caller where no payload could be selected.
pub const MESSAGE_MISSING_DATA: &'static str = "缺少有效數據";

/// Told to the caller where the payload fits no QR symbol.
pub const MESSAGE_UNPROCESSABLE: &'static str = "你輸入的字串無法處理";

/// Told to the caller where the image could not be written out.
pub const MESSAGE_IMAGE_FAILURE: &'static str = "無法生成圖像";

impl ApiError {
    /// The HTTP status that answers this failure: the two that the request
    /// causes are the client's, the third is the server's.
    pub open spec fn spec_status(self) -> u16 {
        match self {
            ApiError::MissingPayload => STATUS_BAD_REQUEST,
            ApiError::QrEncodingFailure => STATUS_BAD_REQUEST,
            ApiError::ImageSerializationFailure => STATUS_INTERNAL_SERVER_ERROR,
        }
    }

    /// The short text that answers this failure.
    pub open spec fn spec_message(self) -> Seq<char> {
        match self {
            ApiError::MissingPayload => MESSAGE_MISSING_DATA@,
            ApiError::QrEncodingFailure => MESSAGE_UNPROCESSABLE@,
            ApiError::ImageSerializationFailure => MESSAGE_IMAGE_FAILURE@,
        }
    }

    /// The HTTP status that answers this failure.
    #[verifier::when_used_as_spec(spec_status)]
    pub fn status(self) -> (r: u16)
        ensures
            r == self.spec_status(),
    {
        match self {
            ApiError::MissingPayload => STATUS_BAD_REQUEST,
            ApiError::QrEncodingFailure => STATUS_BAD_REQUEST,
            ApiError::ImageSerializationFailure => STATUS_INTERNAL_SERVER_ERROR,
        }
    }

    /// The short text that answers this failure.
    pub fn message(self) -> (r: &'static str)
        ensures
            r@ == self.spec_message(),
    {
        match self {
            ApiError::MissingPayload => MESSAGE_MISSING_DATA,
            ApiError::QrEncodingFailure => MESSAGE_UNPROCESSABLE,
            ApiError::ImageSerializationFailure => MESSAGE_IMAGE_FAILURE,
        }
    }
}

} // verus!
