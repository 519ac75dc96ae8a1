//! Transferable stream descriptions.

use vstd::prelude::*;

use crate::error::Error;
use crate::time::Rational;

verus! {

/// The codec identifier of H.264 streams, as numbered by the codec engine.
pub const H264_CODEC_ID: u32 = 27;

/// Transferable stream information: what is needed to instantiate a matching
/// output stream in a different container without re-encoding. The codec
/// parameter blob itself stays with the codec engine; this records the
/// stream index, the codec's identifier and the source time base.
#[derive(Debug, Clone, Copy, PartialEq, Eq, Structural)]
pub struct StreamInfo {
    pub index: usize,
    pub codec_id: u32,
    pub time_base: Rational,
}

impl StreamInfo {
    /// Assemble stream information from its parts.
    pub fn from_params(codec_id: u32, time_base: Rational, stream_index: usize) -> (r: Result<
        StreamInfo,
        Error,
    >)
        ensures
            r == Result::<StreamInfo, Error>::Ok(
                StreamInfo { index: stream_index, codec_id, time_base },
            ),
    {
        Result::Ok(StreamInfo { index: stream_index, codec_id, time_base })
    }

    /// The parts: stream index, codec identifier, and source time base.
    pub fn into_parts(self) -> (r: (usize, u32, Rational))
        ensures
            r.0 == self.index,
            r.1 == self.codec_id,
            r.2 == self.time_base,
    {
        (self.index, self.codec_id, self.time_base)
    }
}

} // verus!
