use vstd::prelude::*;

verus! {

/// The failure taxonomy of the proxy. Every request either succeeds or
/// surfaces exactly one of these to its caller as a terminal failure;
/// nothing is retried and nothing is cached on a failed request.
#[derive(Clone, Copy, Debug, PartialEq, Eq, Structural)]
pub enum AppError {
    /// The request carried no usable path parameter.
    BadPath,
    /// The backend reported a non-success status or an incomplete envelope.
    RemoteNotFound,
    /// The raw byte download from the backend failed.
    RemoteFetchFailed,
    /// The multipart upload to the backend failed.
    RemoteUploadFailed,
    /// The source bytes could not be decoded as an image.
    UnsupportedImage,
    /// The raster was in no layout the encoder accepts.
    EncodeUnsupportedColorMode,
    /// The API key header was missing or wrong.
    Unauthorized,
}

/// The plain-text body that a failed request is rendered as.
pub open spec fn spec_message(e: AppError) -> Seq<char> {
    match e {
        AppError::BadPath => "img_path not found"@,
        AppError::RemoteNotFound => "remote file not found"@,
        AppError::RemoteFetchFailed => "remote fetch failed"@,
        AppError::RemoteUploadFailed => "remote upload failed"@,
        AppError::UnsupportedImage => "unsupported image"@,
        AppError::EncodeUnsupportedColorMode => "unsupported color mode"@,
        AppError::Unauthorized => "API-KEY not correct"@,
    }
}

impl AppError {
    /// Plain-text rendering of the error kind, as the handlers send it.
    pub fn message(&self) -> (r: String)
        ensures
            r@ == spec_message(*self),
    {
        match self {
            AppError::BadPath => "img_path not found".to_owned(),
            AppError::RemoteNotFound => "remote file not found".to_owned(),
            AppError::RemoteFetchFailed => "remote fetch failed".to_owned(),
            AppError::RemoteUploadFailed => "remote upload failed".to_owned(),
            AppError::UnsupportedImage => "unsupported image".to_owned(),
            AppError::EncodeUnsupportedColorMode => "unsupported color mode".to_owned(),
            AppError::Unauthorized => "API-KEY not correct".to_owned(),
        }
    }
}

} // verus!
