//! RTP muxing: muxing into packetized buffers and classifying each output
//! buffer as an RTP payload or an RTCP report.

use vstd::prelude::*;

use crate::error::Error;
use crate::extradata::{Pps, Sps};
use crate::mux::{MuxStep, Muxer, MuxerBuilder, spec_finish_step, spec_parameter_sets_entry, spec_route};
use crate::packet::Packet;
use crate::stream::StreamInfo;
use crate::time::Rational;

verus! {

/// The packet-type value an RTCP sender report carries at byte offset one.
pub const RTCP_SR_MARKER: u8 = 200;

/// A buffer-form RTP packet: either a normal RTP payload or an RTCP packet
/// (a sender report).
#[derive(Debug, Clone, PartialEq, Eq)]
pub enum RtpBuf {
    Rtp(Vec<u8>),
    Rtcp(Vec<u8>),
}

impl RtpBuf {
    /// Whether a buffer is taken for RTCP: its second byte carries the
    /// sender-report marker. This is a lightweight heuristic on one byte,
    /// not a full RTCP header parse; buffers of fewer than two bytes are
    /// taken for RTP.
    pub open spec fn spec_is_rtcp(buf: Seq<u8>) -> bool {
        buf.len() >= 2 && buf[1] == RTCP_SR_MARKER
    }

    /// The bytes the classification carries.
    pub open spec fn spec_payload(self) -> Seq<u8> {
        match self {
            RtpBuf::Rtp(buf) => buf@,
            RtpBuf::Rtcp(buf) => buf@,
        }
    }

    /// Classify one output buffer as RTP or RTCP.
    pub fn from(buf: Vec<u8>) -> (r: RtpBuf)
        ensures
            r == if RtpBuf::spec_is_rtcp(buf@) {
                RtpBuf::Rtcp(buf)
            } else {
                RtpBuf::Rtp(buf)
            },
    {
        if buf.len() >= 2 && buf[1] == RTCP_SR_MARKER {
            RtpBuf::Rtcp(buf)
        } else {
            RtpBuf::Rtp(buf)
        }
    }

    /// Whether `r` is `buf` correctly classified: it carries exactly the
    /// bytes of `buf`, and is RTCP exactly when the marker says so.
    pub open spec fn spec_classify(buf: Seq<u8>, r: RtpBuf) -> bool {
        r.spec_payload() == buf && (r is Rtcp <==> RtpBuf::spec_is_rtcp(buf))
    }

    /// The bare buffer, without the classification.
    pub fn into_buf(self) -> (r: Vec<u8>)
        ensures
            r@ == self.spec_payload(),
    {
        match self {
            RtpBuf::Rtp(buf) => buf,
            RtpBuf::Rtcp(buf) => buf,
        }
    }
}

/// Builds an [`RtpMuxer`].
pub struct RtpMuxerBuilder {
    pub inner: MuxerBuilder,
}

impl RtpMuxerBuilder {
    /// Create a new [`RtpMuxerBuilder`] with no streams mapped.
    pub fn new() -> (r: RtpMuxerBuilder)
        ensures
            r.inner.spec_mapping() == Seq::<(usize, crate::mux::StreamDescription)>::empty(),
            r.inner.spec_codec_ids() == Seq::<u32>::empty(),
            !r.inner.spec_interleaved(),
    {
        RtpMuxerBuilder { inner: MuxerBuilder::new() }
    }

    /// Add an output stream based on an input stream's information, as
    /// [`MuxerBuilder::with_stream`] does.
    pub fn with_stream(self, stream_info: StreamInfo) -> (r: Result<RtpMuxerBuilder, Error>)
        requires
            stream_info.time_base.is_positive(),
        ensures
            match r {
                Result::Ok(b) => b.inner.spec_mapping() == self.inner.spec_mapping().push(
                    (
                        stream_info.index,
                        crate::mux::StreamDescription {
                            index: self.inner.spec_codec_ids().len() as usize,
                            source_time_base: stream_info.time_base,
                        },
                    ),
                ) && b.inner.spec_codec_ids() == self.inner.spec_codec_ids().push(
                    stream_info.codec_id,
                ) && b.inner.spec_interleaved() == self.inner.spec_interleaved(),
                Result::Err(_) => false,
            },
    {
        match self.inner.with_stream(stream_info) {
            Result::Ok(inner) => Result::Ok(RtpMuxerBuilder { inner }),
            Result::Err(e) => Result::Err(e),
        }
    }

    /// Add output streams for every entry of `stream_infos` in order.
    pub fn with_streams(self, stream_infos: &Vec<StreamInfo>) -> (r: Result<RtpMuxerBuilder, Error>)
        requires
            forall|i: int|
                0 <= i < stream_infos@.len() ==> (
                #[trigger] stream_infos@[i]).time_base.is_positive(),
        ensures
            match r {
                Result::Ok(b) => b.inner.spec_codec_ids().len() == self.inner.spec_codec_ids().len()
                    + stream_infos@.len() && b.inner.spec_mapping().len()
                    == self.inner.spec_mapping().len() + stream_infos@.len()
                    && b.inner.spec_interleaved() == self.inner.spec_interleaved() && (forall|i: int|
                    0 <= i < self.inner.spec_mapping().len() ==> b.inner.spec_mapping()[i]
                        == self.inner.spec_mapping()[i]) && (forall|i: int|
                    0 <= i < stream_infos@.len() ==> b.inner.spec_mapping()[
                        self.inner.spec_mapping().len() + i] == (
                    (#[trigger] stream_infos@[i]).index,
                    crate::mux::StreamDescription {
                        index: (self.inner.spec_codec_ids().len() + i) as usize,
                        source_time_base: stream_infos@[i].time_base,
                    },
                )) && (forall|i: int|
                    0 <= i < stream_infos@.len() ==> b.inner.spec_codec_ids()[
                        self.inner.spec_codec_ids().len() + i] == (
                    #[trigger] stream_infos@[i]).codec_id),
                Result::Err(_) => false,
            },
    {
        match self.inner.with_streams(stream_infos) {
            Result::Ok(inner) => Result::Ok(RtpMuxerBuilder { inner }),
            Result::Err(e) => Result::Err(e),
        }
    }

    /// Build the [`RtpMuxer`]. It will not write in interleaved mode.
    pub fn build(self) -> (r: RtpMuxer)
        ensures
            r.inner.mapping@ == self.inner.spec_mapping(),
            r.inner.codec_ids@ == self.inner.spec_codec_ids(),
            r.inner.interleaved == self.inner.spec_interleaved(),
            !r.inner.have_written_header,
            !r.inner.have_written_trailer,
    {
        RtpMuxer { inner: self.inner.build() }
    }
}

/// A muxer that muxes into the RTP format, with the output arriving as
/// packetized buffers rather than one byte stream.
pub struct RtpMuxer {
    pub inner: Muxer,
}

impl RtpMuxer {
    /// Create a new non-interleaved [`RtpMuxer`] with no streams mapped.
    pub fn new() -> (r: RtpMuxer)
        ensures
            r.inner.mapping@ == Seq::<(usize, crate::mux::StreamDescription)>::empty(),
            r.inner.codec_ids@ == Seq::<u32>::empty(),
            !r.inner.interleaved,
            !r.inner.have_written_header,
            !r.inner.have_written_trailer,
    {
        RtpMuxerBuilder::new().build()
    }

    /// Mux a single packet, as [`Muxer::mux`] does. The buffers the
    /// packetized writer then produces are classified with
    /// [`RtpMuxer::classify_bufs`].
    pub fn mux(&mut self, packet: Packet, dest_time_bases: &Vec<Rational>) -> (r: MuxStep)
        requires
            old(self).inner.wf(),
            forall|i: int|
                0 <= i < dest_time_bases@.len() ==> (
                #[trigger] dest_time_bases@[i]).is_positive(),
        ensures
            r.write_header_first == !old(self).inner.have_written_header,
            r.routed == spec_route(old(self).inner.mapping@, packet, dest_time_bases@),
            final(self).inner == (Muxer { have_written_header: true, ..old(self).inner }),
    {
        self.inner.mux(packet, dest_time_bases)
    }

    /// Signal that writing has finished, as [`Muxer::finish`] does: true
    /// exactly when the trailer must be written now, at most once.
    pub fn finish(&mut self) -> (r: bool)
        ensures
            r == spec_finish_step(
                old(self).inner.have_written_header,
                old(self).inner.have_written_trailer,
            ).0,
            final(self).inner == (
            Muxer { have_written_trailer: old(self).inner.have_written_trailer || r, ..old(self).inner }),
    {
        self.inner.finish()
    }

    /// Classify the output buffers of one write: each is RTCP exactly when
    /// its second byte carries the sender-report marker.
    pub fn classify_bufs(bufs: Vec<Vec<u8>>) -> (r: Vec<RtpBuf>)
        ensures
            r@.len() == bufs@.len(),
            forall|i: int| 0 <= i < r@.len() ==> RtpBuf::spec_classify(bufs@[i]@, #[trigger] r@[i]),
    {
        let mut out: Vec<RtpBuf> = Vec::new();
        let mut bufs = bufs;
        let ghost orig = bufs@;
        let mut i: usize = 0;
        while i < bufs.len()
            invariant
                i <= bufs@.len(),
                bufs@ == orig,
                out@.len() == i,
                forall|j: int|
                    0 <= j < i ==> RtpBuf::spec_classify(orig[j]@, #[trigger] out@[j]),
            decreases bufs@.len() - i,
        {
            let buf = bufs[i].clone();
            proof {
                assert(buf@ == orig[i as int]@);
            }
            out.push(RtpBuf::from(buf));
            i = i + 1;
        }
        out
    }

    /// The RTP packetization mode in use, from the engine's report of
    /// whether the output format runs in mode zero.
    pub fn packetization_mode(&self, is_packetization_mode_0: bool) -> (r: usize)
        ensures
            r == if is_packetization_mode_0 {
                0usize
            } else {
                1usize
            },
    {
        if !is_packetization_mode_0 {
            1
        } else {
            0
        }
    }

    /// Extract the H.264 parameter sets of every output stream from the
    /// streams' codec configuration bytes, as [`Muxer::parameter_sets_h264`]
    /// does.
    pub fn parameter_sets_h264<'a>(&self, extradata: &'a Vec<Vec<u8>>) -> (r: Vec<
        Result<(Sps<'a>, Pps<'a>), Error>,
    >)
        requires
            extradata@.len() == self.inner.codec_ids@.len(),
        ensures
            r@.len() == self.inner.codec_ids@.len(),
            forall|i: int|
                0 <= i < r@.len() ==> spec_parameter_sets_entry(
                    self.inner.codec_ids@[i],
                    extradata@[i]@,
                    #[trigger] r@[i],
                ),
    {
        self.inner.parameter_sets_h264(extradata)
    }
}

} // verus!
