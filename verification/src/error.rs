//! Error taxonomy of the pipeline layer.

use vstd::prelude::*;

verus! {

/// Errors raised by readers, pipelines and muxers.
///
/// `BackendError` carries the raw error code reported by the codec engine and
/// is passed through unchanged; every other variant is produced by this
/// crate's own validation and state tracking.
#[derive(Debug, Clone, PartialEq, Eq, Structural)]
pub enum Error {
    /// The packet source produced nothing on several consecutive reads: the
    /// stream has truly ended.
    ReadExhausted,
    /// A write could not be completed even after repeated attempts.
    WriteRetryLimitReached,
    /// A frame handed to the encoder does not match the dimensions or pixel
    /// format negotiated at construction time.
    InvalidFrameFormat,
    /// A codec configuration blob is malformed: a length field would read
    /// past the end of the buffer, or no parameter set could be found.
    InvalidExtraData,
    /// A stream never reported a valid pixel format or non-zero dimensions.
    MissingCodecParameters,
    /// The requested resize policy yields no valid output dimensions.
    InvalidResizeParameters,
    /// Parameter-set extraction was requested for a stream whose codec is not
    /// supported by the extractor.
    UnsupportedCodecParameterSets,
    /// No codec could be found to set up the requested context.
    UninitializedCodec,
    /// The requested hardware acceleration device cannot serve this codec.
    UnsupportedCodecHardwareAccelerationDeviceType,
    /// A packet references a stream that no mapping entry or output stream
    /// exists for.
    StreamNotFound,
    /// An error code reported by the codec engine, passed through unchanged.
    BackendError(i32),
}

impl Error {
    /// A human-readable description of the error.
    pub fn message(&self) -> (r: String)
        ensures r@ == self.spec_message(),
    {
        match self {
            Error::ReadExhausted => String::from_str("stream exhausted"),
            Error::WriteRetryLimitReached => {
                String::from_str("cannot write to video stream, even after multiple tries")
            },
            Error::InvalidFrameFormat => {
                String::from_str("provided frame does not match expected dimensions and/or pixel format")
            },
            Error::InvalidExtraData => String::from_str("codec parameters extradata is corrupted"),
            Error::MissingCodecParameters => String::from_str("codec parameters missing"),
            Error::InvalidResizeParameters => {
                String::from_str("cannot resize frame to provided dimensions")
            },
            Error::UnsupportedCodecParameterSets => {
                String::from_str("extracting parameter sets for this codec is not supported")
            },
            Error::UninitializedCodec => String::from_str("codec context is not initialized"),
            Error::UnsupportedCodecHardwareAccelerationDeviceType => {
                String::from_str("codec does not support hardware acceleration device type")
            },
            Error::StreamNotFound => String::from_str("stream not found"),
            Error::BackendError(_) => String::from_str("backend error"),
        }
    }

    /// What `message` returns for each variant.
    pub open spec fn spec_message(self) -> Seq<char> {
        match self {
            Error::ReadExhausted => "stream exhausted"@,
            Error::WriteRetryLimitReached => {
                "cannot write to video stream, even after multiple tries"@
            },
            Error::InvalidFrameFormat => {
                "provided frame does not match expected dimensions and/or pixel format"@
            },
            Error::InvalidExtraData => "codec parameters extradata is corrupted"@,
            Error::MissingCodecParameters => "codec parameters missing"@,
            Error::InvalidResizeParameters => "cannot resize frame to provided dimensions"@,
            Error::UnsupportedCodecParameterSets => {
                "extracting parameter sets for this codec is not supported"@
            },
            Error::UninitializedCodec => "codec context is not initialized"@,
            Error::UnsupportedCodecHardwareAccelerationDeviceType => {
                "codec does not support hardware acceleration device type"@
            },
            Error::StreamNotFound => "stream not found"@,
            Error::BackendError(_) => "backend error"@,
        }
    }
}

} // verus!
