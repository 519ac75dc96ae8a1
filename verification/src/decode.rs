//! The decode pipeline's coordination: negotiating output dimensions and
//! the scaler at construction, rescaling packet timestamps before feeding,
//! and deciding what happens to each drained frame.
//!
//! The codec engine does the decoding; what stands here is every decision
//! the pipeline takes around its feed/drain protocol.

use vstd::prelude::*;

use crate::error::Error;
use crate::frame::{FRAME_PIXEL_FORMAT, PIXEL_FORMAT_NONE, PIXEL_FORMAT_NV12};
use crate::packet::{Packet, spec_rescale_ts};
use crate::resize::Resize;
use crate::time::Rational;

verus! {

/// The pixel format every hardware-accelerated decode is downloaded in
/// before rescaling.
pub const HWACCEL_PIXEL_FORMAT: i32 = PIXEL_FORMAT_NV12;

/// How many drain attempts a teardown or flush makes before giving up.
/// Codec engines hold several frames of look-ahead that must be drained on
/// teardown, or they leak internal buffers on some backends.
pub const MAX_DRAIN_ITERATIONS: u32 = 100;

/// The bounded retry budget of a teardown or flush drain loop: the only
/// timeout mechanism these loops have.
#[derive(Debug, Clone, Copy, PartialEq, Eq, Structural)]
pub struct DrainBudget {
    pub remaining: u32,
}

impl DrainBudget {
    /// A fresh budget of [`MAX_DRAIN_ITERATIONS`] attempts.
    pub fn new() -> (r: DrainBudget)
        ensures
            r.remaining == MAX_DRAIN_ITERATIONS,
    {
        DrainBudget { remaining: MAX_DRAIN_ITERATIONS }
    }

    /// A budget of `limit` attempts.
    pub fn with_limit(limit: u32) -> (r: DrainBudget)
        ensures
            r.remaining == limit,
    {
        DrainBudget { remaining: limit }
    }

    /// Spend one attempt: whether one was left to spend.
    pub fn step(&mut self) -> (r: bool)
        ensures
            r == (old(self).remaining > 0),
            final(self).remaining == (if old(self).remaining > 0 {
                (old(self).remaining - 1) as u32
            } else {
                0u32
            }),
    {
        if self.remaining > 0 {
            self.remaining = self.remaining - 1;
            true
        } else {
            false
        }
    }
}

/// What happens to one drained frame: whether it must be downloaded from
/// the hardware device to host memory, and whether it must be put through
/// the scaler.
#[derive(Debug, Clone, Copy, PartialEq, Eq, Structural)]
pub struct DecodePlan {
    pub download_to_host: bool,
    pub rescale: bool,
}

/// The decoder part of a split decoder and reader: the negotiated state
/// the decode loop consults on every packet and frame.
#[derive(Debug, Clone, Copy, PartialEq, Eq)]
pub struct DecoderSplit {
    pub decoder_time_base: Rational,
    pub hwaccel_format: Option<i32>,
    pub scaler_needed: bool,
    pub size: (u32, u32),
    pub size_out: (u32, u32),
}

/// What construction negotiates from the stream's reported format and
/// dimensions.
///
/// A stream that never reported a pixel format or non-zero dimensions is
/// `MissingCodecParameters`. A resize policy that yields no dimensions is
/// `InvalidResizeParameters`; without a policy the source dimensions pass
/// through. The scaler is built only when the scaler input format or the
/// dimensions differ from the pipeline's output contract — with hardware
/// acceleration the scaler input is always the download format.
pub open spec fn spec_negotiate(
    decoder_format: i32,
    width: u32,
    height: u32,
    decoder_time_base: Rational,
    resize: Option<Resize>,
    hwaccel_format: Option<i32>,
) -> Result<DecoderSplit, Error> {
    if decoder_format == PIXEL_FORMAT_NONE || width == 0 || height == 0 {
        Result::Err(Error::MissingCodecParameters)
    } else {
        let out = match resize {
            Option::None => Option::Some((width as int, height as int)),
            Option::Some(rz) => rz.spec_compute_for((width, height)),
        };
        match out {
            Option::None => Result::Err(Error::InvalidResizeParameters),
            Option::Some(o) => {
                let scaler_input_format = if hwaccel_format is Some {
                    HWACCEL_PIXEL_FORMAT
                } else {
                    decoder_format
                };
                Result::Ok(
                    DecoderSplit {
                        decoder_time_base,
                        hwaccel_format,
                        scaler_needed: !(scaler_input_format == FRAME_PIXEL_FORMAT && o.0 == width
                            && o.1 == height),
                        size: (width, height),
                        size_out: (o.0 as u32, o.1 as u32),
                    },
                )
            },
        }
    }
}

impl DecoderSplit {
    /// Negotiate a decode pipeline from the stream's reported pixel format
    /// and dimensions, the requested resize policy, and the hardware
    /// download format if acceleration is active.
    pub fn new(
        decoder_format: i32,
        width: u32,
        height: u32,
        decoder_time_base: Rational,
        resize: Option<Resize>,
        hwaccel_format: Option<i32>,
    ) -> (r: Result<DecoderSplit, Error>)
        ensures
            r == spec_negotiate(
                decoder_format,
                width,
                height,
                decoder_time_base,
                resize,
                hwaccel_format,
            ),
    {
        if decoder_format == PIXEL_FORMAT_NONE || width == 0 || height == 0 {
            return Result::Err(Error::MissingCodecParameters);
        }
        let out = match resize {
            Option::None => Option::Some((width, height)),
            Option::Some(rz) => rz.compute_for((width, height)),
        };
        let (resize_width, resize_height) = match out {
            Option::None => {
                return Result::Err(Error::InvalidResizeParameters);
            },
            Option::Some(o) => o,
        };
        let scaler_input_format = if hwaccel_format.is_some() {
            HWACCEL_PIXEL_FORMAT
        } else {
            decoder_format
        };
        let scaler_needed = !(scaler_input_format == FRAME_PIXEL_FORMAT && resize_width == width
            && resize_height == height);
        Result::Ok(
            DecoderSplit {
                decoder_time_base,
                hwaccel_format,
                scaler_needed,
                size: (width, height),
                size_out: (resize_width, resize_height),
            },
        )
    }

    /// The decoder time base.
    pub fn time_base(&self) -> (r: Rational)
        ensures
            r == self.decoder_time_base,
    {
        self.decoder_time_base
    }

    /// The input size (resolution dimensions): width and height.
    pub fn size(&self) -> (r: (u32, u32))
        ensures
            r == self.size,
    {
        self.size
    }

    /// The output size after resizing is applied: width and height.
    pub fn size_out(&self) -> (r: (u32, u32))
        ensures
            r == self.size_out,
    {
        self.size_out
    }

    /// Rescale a packet's timestamps into the decoder's time base, as must
    /// happen before the packet is fed to the codec engine.
    pub fn prepare_packet(&self, packet: Packet) -> (r: Packet)
        requires
            packet.time_base.is_positive(),
            self.decoder_time_base.is_positive(),
        ensures
            r == spec_rescale_ts(packet, packet.time_base, self.decoder_time_base),
    {
        let mut packet = packet;
        let from = packet.time_base;
        packet.rescale_ts(from, self.decoder_time_base);
        packet
    }

    /// What happens to a drained frame of format `frame_format`: it is
    /// downloaded to host memory exactly when hardware acceleration is
    /// active and the frame carries the device's format, and it is put
    /// through the scaler exactly when one was negotiated.
    pub fn plan_for_frame(&self, frame_format: i32) -> (r: DecodePlan)
        ensures
            r.download_to_host == (self.hwaccel_format matches Option::Some(f) && f
                == frame_format),
            r.rescale == self.scaler_needed,
    {
        let download_to_host = match self.hwaccel_format {
            Option::Some(f) => f == frame_format,
            Option::None => false,
        };
        DecodePlan { download_to_host, rescale: self.scaler_needed }
    }
}

} // verus!
