//! The encode pipeline's coordination: frame validation against the
//! negotiated contract, lazy header writing, periodic key-frame forcing,
//! packet timestamp rescaling, and idempotent finishing.
//!
//! The codec engine does the encoding; what stands here is every decision
//! the pipeline takes around its feed/drain protocol, as state that moves
//! through one step per frame and one step per emitted packet.

use vstd::prelude::*;

use crate::error::Error;
use crate::frame::{FRAME_CHANNELS, FRAME_PIXEL_FORMAT, PIXEL_FORMAT_YUV420P};
use crate::mux::spec_finish_step;
use crate::options::{
    Options, entry_views, spec_preset_h264, spec_preset_h264_realtime,
};
use crate::packet::{Packet, spec_rescale_ts};
use crate::time::{Rational, Time};

verus! {

/// A key frame is forced every this many frames, unless configured
/// otherwise: a simple periodic refresh, not scene-adaptive.
pub const KEY_FRAME_INTERVAL: u64 = 12;

/// The assumed frame rate for an encoder. It does not need to be exact.
pub const FRAME_RATE: i32 = 30;

/// A logical combination of encoder settings.
#[derive(Debug, Clone)]
pub struct Settings {
    pub width: u32,
    pub height: u32,
    pub pixel_format: i32,
    pub options: Options,
}

impl Settings {
    /// Settings for an H.264 stream with planar YUV 4:2:0 pixels — arguably
    /// the most widely compatible combination — either with the default
    /// encoder options or tuned for real-time streaming.
    pub fn preset_h264_yuv420p(width: usize, height: usize, realtime: bool) -> (r: Settings)
        requires
            width <= u32::MAX,
            height <= u32::MAX,
        ensures
            r.width == width as u32,
            r.height == height as u32,
            r.pixel_format == PIXEL_FORMAT_YUV420P,
            entry_views(r.options.spec_entries()) == if realtime {
                spec_preset_h264_realtime()
            } else {
                spec_preset_h264()
            },
    {
        let options = if realtime {
            Options::preset_h264_realtime()
        } else {
            Options::preset_h264()
        };
        Settings {
            width: width as u32,
            height: height as u32,
            pixel_format: PIXEL_FORMAT_YUV420P,
            options,
        }
    }

    /// Settings for an H.264 stream with a custom pixel format and custom
    /// encoder options.
    pub fn preset_h264_custom(
        width: usize,
        height: usize,
        pixel_format: i32,
        options: Options,
    ) -> (r: Settings)
        requires
            width <= u32::MAX,
            height <= u32::MAX,
        ensures
            r == (Settings { width: width as u32, height: height as u32, pixel_format, options }),
    {
        Settings { width: width as u32, height: height as u32, pixel_format, options }
    }
}

/// What one accepted frame obliges the caller to do before feeding it:
/// write the container header first (exactly once, before the first frame),
/// and mark the frame as a forced key frame on the periodic refresh.
#[derive(Debug, Clone, Copy, PartialEq, Eq, Structural)]
pub struct FramePlan {
    pub write_header: bool,
    pub force_key_frame: bool,
}

/// The encode pipeline's state: the negotiated frame contract, the frame
/// counter, and the header/trailer bookkeeping.
///
/// The pipeline accepts raw frames, has them reformatted to the encoder's
/// pixel format, forces a key frame periodically, and rewrites each emitted
/// packet onto the output stream with rescaled timestamps.
#[derive(Debug, Clone, Copy, PartialEq, Eq, Structural)]
pub struct Encoder {
    pub writer_stream_index: usize,
    pub encoder_time_base: Rational,
    pub interleaved: bool,
    pub scaler_width: u32,
    pub scaler_height: u32,
    pub frame_count: u64,
    pub key_frame_interval: u64,
    pub have_written_header: bool,
    pub have_written_trailer: bool,
}

impl Encoder {
    /// The key-frame interval is a period, so it is never zero.
    pub open spec fn wf(self) -> bool {
        self.key_frame_interval >= 1
    }

    /// A fresh encode pipeline for the negotiated settings: bound to the
    /// output stream `writer_stream_index`, counting in
    /// `encoder_time_base`, with nothing written yet and the default
    /// key-frame interval.
    pub fn new(
        settings: &Settings,
        writer_stream_index: usize,
        encoder_time_base: Rational,
        interleaved: bool,
    ) -> (r: Encoder)
        ensures
            r == (Encoder {
                writer_stream_index,
                encoder_time_base,
                interleaved,
                scaler_width: settings.width,
                scaler_height: settings.height,
                frame_count: 0,
                key_frame_interval: KEY_FRAME_INTERVAL,
                have_written_header: false,
                have_written_trailer: false,
            }),
            r.wf(),
    {
        Encoder {
            writer_stream_index,
            encoder_time_base,
            interleaved,
            scaler_width: settings.width,
            scaler_height: settings.height,
            frame_count: 0,
            key_frame_interval: KEY_FRAME_INTERVAL,
            have_written_header: false,
            have_written_trailer: false,
        }
    }

    /// Change the period of the key-frame refresh.
    pub fn set_key_frame_interval(&mut self, interval: u64) -> (r: ())
        requires
            interval >= 1,
        ensures
            *final(self) == (Encoder { key_frame_interval: interval, ..*old(self) }),
    {
        self.key_frame_interval = interval;
    }

    /// Accept one dense-array frame of shape height, width, channels.
    ///
    /// A frame that does not match the negotiated dimensions, or does not
    /// have one byte per color channel, is rejected as
    /// `InvalidFrameFormat` and changes nothing. An accepted frame yields
    /// the obligations of [`Encoder::encode_raw`] together with the tick
    /// count to stamp on the frame: the source timestamp rescaled into the
    /// encoder's time base.
    pub fn encode(
        &mut self,
        frame_height: usize,
        frame_width: usize,
        frame_channels: usize,
        source_timestamp: &Time,
    ) -> (r: Result<(FramePlan, Option<i64>), Error>)
        requires
            old(self).wf(),
            source_timestamp.ticks is Some ==> source_timestamp.time_base.is_positive() && old(
                self,
            ).encoder_time_base.is_positive(),
        ensures
            match r {
                Result::Ok(step) => frame_height == old(self).scaler_height && frame_width == old(
                    self,
                ).scaler_width && frame_channels == FRAME_CHANNELS && step.0 == (FramePlan {
                    write_header: !old(self).have_written_header,
                    force_key_frame: old(self).frame_count % old(self).key_frame_interval == 0,
                }) && step.1 == source_timestamp.spec_with_time_base(
                    old(self).encoder_time_base,
                ).ticks && *final(self) == (Encoder { have_written_header: true, ..*old(self) }),
                Result::Err(e) => e == Error::InvalidFrameFormat && !(frame_height == old(
                    self,
                ).scaler_height && frame_width == old(self).scaler_width && frame_channels
                    == FRAME_CHANNELS) && *final(self) == *old(self),
            },
    {
        if !(frame_height == self.scaler_height as usize && frame_width == self.scaler_width
            as usize && frame_channels == FRAME_CHANNELS) {
            return Result::Err(Error::InvalidFrameFormat);
        }
        let ticks = source_timestamp.with_time_base(self.encoder_time_base).into_value();
        match self.encode_raw(self.scaler_width, self.scaler_height, FRAME_PIXEL_FORMAT) {
            Result::Ok(plan) => Result::Ok((plan, ticks)),
            Result::Err(e) => Result::Err(e),
        }
    }

    /// Accept one raw frame.
    ///
    /// A frame that does not exactly match the negotiated dimensions and
    /// working pixel format is rejected as `InvalidFrameFormat` and
    /// changes nothing. An accepted frame obliges the caller to write the
    /// container header first if none was written — it is written lazily,
    /// on the first frame — and to force a key frame on the periodic
    /// refresh, before reformatting and feeding the frame.
    pub fn encode_raw(&mut self, frame_width: u32, frame_height: u32, frame_format: i32) -> (r:
        Result<FramePlan, Error>)
        requires
            old(self).wf(),
        ensures
            match r {
                Result::Ok(plan) => frame_width == old(self).scaler_width && frame_height == old(
                    self,
                ).scaler_height && frame_format == FRAME_PIXEL_FORMAT && plan == (FramePlan {
                    write_header: !old(self).have_written_header,
                    force_key_frame: old(self).frame_count % old(self).key_frame_interval == 0,
                }) && *final(self) == (Encoder { have_written_header: true, ..*old(self) }),
                Result::Err(e) => e == Error::InvalidFrameFormat && !(frame_width == old(
                    self,
                ).scaler_width && frame_height == old(self).scaler_height && frame_format
                    == FRAME_PIXEL_FORMAT) && *final(self) == *old(self),
            },
    {
        if frame_width != self.scaler_width || frame_height != self.scaler_height || frame_format
            != FRAME_PIXEL_FORMAT {
            return Result::Err(Error::InvalidFrameFormat);
        }
        let write_header = !self.have_written_header;
        self.have_written_header = true;
        let force_key_frame = self.frame_count % self.key_frame_interval == 0;
        Result::Ok(FramePlan { write_header, force_key_frame })
    }

    /// Rewrite one packet the codec engine emitted so the container writer
    /// can take it: bind it to the output stream, clear the byte position —
    /// it is meaningless across containers — and rescale its timestamps
    /// from the encoder's time base into the output stream's, then count
    /// the frame.
    pub fn write(&mut self, packet: &mut Packet, stream_time_base: Rational) -> (r: ())
        requires
            old(self).encoder_time_base.is_positive(),
            stream_time_base.is_positive(),
            old(self).frame_count < u64::MAX,
        ensures
            *final(packet) == (Packet {
                stream_index: old(self).writer_stream_index,
                position: -1i64,
                ..spec_rescale_ts(*old(packet), old(self).encoder_time_base, stream_time_base)
            }),
            *final(self) == (Encoder {
                frame_count: (old(self).frame_count + 1) as u64,
                ..*old(self)
            }),
    {
        packet.stream_index = self.writer_stream_index;
        packet.position = -1;
        let from = self.encoder_time_base;
        packet.rescale_ts(from, stream_time_base);
        self.frame_count = self.frame_count + 1;
    }

    /// Signal that writing has finished: the result says whether the
    /// caller must now flush the encoder and write the container trailer.
    /// That happens at most once, and only if the header was ever written;
    /// repeated calls are no-ops.
    pub fn finish(&mut self) -> (r: bool)
        ensures
            r == spec_finish_step(old(self).have_written_header, old(self).have_written_trailer).0,
            final(self).have_written_trailer == spec_finish_step(
                old(self).have_written_header,
                old(self).have_written_trailer,
            ).1,
            *final(self) == (
            Encoder { have_written_trailer: final(self).have_written_trailer, ..*old(self) }),
    {
        if self.have_written_header && !self.have_written_trailer {
            self.have_written_trailer = true;
            true
        } else {
            false
        }
    }

    /// The encoder time base.
    pub fn time_base(&self) -> (r: Rational)
        ensures
            r == self.encoder_time_base,
    {
        self.encoder_time_base
    }
}

} // verus!
