//! Muxing: routing media packets from source streams to output streams,
//! rescaling their timestamps between time bases on the way.
//!
//! The muxer here is the routing and sequencing core: it owns the stream
//! mapping and the header/trailer bookkeeping and computes, for every packet,
//! exactly what the container writer must be told. The container writer
//! itself — the part that turns those instructions into bytes — stays with
//! the codec engine, which is handed the routed packet and the header and
//! trailer duties this muxer schedules.

use vstd::prelude::*;

use crate::error::Error;
use crate::extradata::{Pps, Sps, extract_parameter_sets_h264, seq_views, spec_extract_h264};
use crate::packet::Packet;
use crate::stream::{H264_CODEC_ID, StreamInfo};
use crate::time::{Rational, rescale_ticks, spec_rescale};

verus! {

/// Where packets of one source stream go: the destination stream index and
/// the source time base to rescale their timestamps out of.
#[derive(Debug, Clone, Copy, PartialEq, Eq, Structural)]
pub struct StreamDescription {
    pub index: usize,
    pub source_time_base: Rational,
}

/// The mapping entry that applies to source stream `key`: the one added
/// last, as each later entry for a key replaces the earlier one.
pub open spec fn spec_lookup(
    entries: Seq<(usize, StreamDescription)>,
    key: usize,
) -> Option<StreamDescription>
    decreases entries.len(),
{
    if entries.len() == 0 {
        Option::None
    } else if entries.last().0 == key {
        Option::Some(entries.last().1)
    } else {
        spec_lookup(entries.drop_last(), key)
    }
}

/// One finish step over the header/trailer flags: the trailer is owed
/// exactly when the header was written and the trailer was not, and the
/// trailer flag is set as soon as the trailer is owed.
pub open spec fn spec_finish_step(header_written: bool, trailer_written: bool) -> (bool, bool) {
    let emit = header_written && !trailer_written;
    (emit, trailer_written || emit)
}

/// A trailer is never owed twice: after one finish step, a second step owes
/// nothing, whatever the flags were.
pub proof fn lemma_finish_emits_trailer_once(header_written: bool, trailer_written: bool)
    ensures
        !spec_finish_step(header_written, spec_finish_step(header_written, trailer_written).1).0,
{
}

/// Builds a [`Muxer`].
pub struct MuxerBuilder {
    mapping: Vec<(usize, StreamDescription)>,
    codec_ids: Vec<u32>,
    interleaved: bool,
}

impl MuxerBuilder {
    /// The accumulated mapping entries, in the order they were added.
    pub closed spec fn spec_mapping(self) -> Seq<(usize, StreamDescription)> {
        self.mapping@
    }

    /// The codec identifier of each destination stream, by destination
    /// index.
    pub closed spec fn spec_codec_ids(self) -> Seq<u32> {
        self.codec_ids@
    }

    /// Whether interleaved writing was requested.
    pub closed spec fn spec_interleaved(self) -> bool {
        self.interleaved
    }

    /// Create a new [`MuxerBuilder`] with no streams mapped.
    pub fn new() -> (r: MuxerBuilder)
        ensures
            r.spec_mapping() == Seq::<(usize, StreamDescription)>::empty(),
            r.spec_codec_ids() == Seq::<u32>::empty(),
            !r.spec_interleaved(),
    {
        let r = MuxerBuilder { mapping: Vec::new(), codec_ids: Vec::new(), interleaved: false };
        proof {
            assert(r.mapping@ =~= Seq::<(usize, StreamDescription)>::empty());
            assert(r.codec_ids@ =~= Seq::<u32>::empty());
        }
        r
    }

    /// Add an output stream based on an input stream's information. Packets
    /// handed to [`Muxer::mux`] from that input stream will be routed to the
    /// new output stream. At least one stream must be added before muxing.
    ///
    /// # Arguments
    ///
    /// * `stream_info` - Stream information, as a reader reports it.
    pub fn with_stream(self, stream_info: StreamInfo) -> (r: Result<MuxerBuilder, Error>)
        requires
            stream_info.time_base.is_positive(),
        ensures
            match r {
                Result::Ok(b) => b.spec_mapping() == self.spec_mapping().push(
                    (
                        stream_info.index,
                        StreamDescription {
                            index: self.spec_codec_ids().len() as usize,
                            source_time_base: stream_info.time_base,
                        },
                    ),
                ) && b.spec_codec_ids() == self.spec_codec_ids().push(stream_info.codec_id)
                    && b.spec_interleaved() == self.spec_interleaved(),
                Result::Err(_) => false,
            },
    {
        let mut mapping = self.mapping;
        let mut codec_ids = self.codec_ids;
        let description = StreamDescription {
            index: codec_ids.len(),
            source_time_base: stream_info.time_base,
        };
        mapping.push((stream_info.index, description));
        codec_ids.push(stream_info.codec_id);
        Result::Ok(MuxerBuilder { mapping, codec_ids, interleaved: self.interleaved })
    }

    /// Add output streams for every entry of `stream_infos` in order, as if
    /// by repeated [`MuxerBuilder::with_stream`].
    pub fn with_streams(self, stream_infos: &Vec<StreamInfo>) -> (r: Result<MuxerBuilder, Error>)
        requires
            forall|i: int|
                0 <= i < stream_infos@.len() ==> (#[trigger] stream_infos@[i]).time_base.is_positive(),
        ensures
            match r {
                Result::Ok(b) => b.spec_codec_ids().len() == self.spec_codec_ids().len()
                    + stream_infos@.len() && b.spec_mapping().len() == self.spec_mapping().len()
                    + stream_infos@.len() && b.spec_interleaved() == self.spec_interleaved() && (
                forall|i: int|
                    0 <= i < self.spec_mapping().len() ==> b.spec_mapping()[i]
                        == self.spec_mapping()[i]) && (forall|i: int|
                    0 <= i < stream_infos@.len() ==> b.spec_mapping()[self.spec_mapping().len() + i]
                        == (
                    (#[trigger] stream_infos@[i]).index,
                    StreamDescription {
                        index: (self.spec_codec_ids().len() + i) as usize,
                        source_time_base: stream_infos@[i].time_base,
                    },
                )) && (forall|i: int|
                    0 <= i < stream_infos@.len() ==> b.spec_codec_ids()[self.spec_codec_ids().len()
                        + i] == (#[trigger] stream_infos@[i]).codec_id),
                Result::Err(_) => false,
            },
    {
        let mut builder = self;
        let ghost orig_mapping = builder.spec_mapping();
        let ghost orig_codecs = builder.spec_codec_ids();
        let mut i: usize = 0;
        while i < stream_infos.len()
            invariant
                i <= stream_infos@.len(),
                forall|j: int|
                    0 <= j < stream_infos@.len() ==> (
                    #[trigger] stream_infos@[j]).time_base.is_positive(),
                builder.spec_mapping().len() == orig_mapping.len() + i,
                builder.spec_codec_ids().len() == orig_codecs.len() + i,
                builder.spec_interleaved() == self.spec_interleaved(),
                forall|j: int|
                    0 <= j < orig_mapping.len() ==> #[trigger] builder.spec_mapping()[j]
                        == orig_mapping[j],
                forall|j: int|
                    0 <= j < i ==> #[trigger] builder.spec_mapping()[orig_mapping.len() + j] == (
                    stream_infos@[j].index,
                    StreamDescription {
                        index: (orig_codecs.len() + j) as usize,
                        source_time_base: stream_infos@[j].time_base,
                    },
                ),
                forall|j: int|
                    0 <= j < orig_codecs.len() ==> #[trigger] builder.spec_codec_ids()[j]
                        == orig_codecs[j],
                forall|j: int|
                    0 <= j < i ==> #[trigger] builder.spec_codec_ids()[orig_codecs.len() + j]
                        == stream_infos@[j].codec_id,
            decreases stream_infos@.len() - i,
        {
            builder = match builder.with_stream(stream_infos[i]) {
                Result::Ok(b) => b,
                Result::Err(e) => {
                    return Result::Err(e);
                },
            };
            i = i + 1;
        }
        Result::Ok(builder)
    }

    /// Use interleaved writing instead of direct writing.
    pub fn interleaved(self) -> (r: MuxerBuilder)
        ensures
            r.spec_mapping() == self.spec_mapping(),
            r.spec_codec_ids() == self.spec_codec_ids(),
            r.spec_interleaved(),
    {
        MuxerBuilder { interleaved: true, ..self }
    }

    /// Build the [`Muxer`].
    pub fn build(self) -> (r: Muxer)
        ensures
            r.mapping@ == self.spec_mapping(),
            r.codec_ids@ == self.spec_codec_ids(),
            r.interleaved == self.spec_interleaved(),
            !r.have_written_header,
            !r.have_written_trailer,
    {
        Muxer {
            mapping: self.mapping,
            codec_ids: self.codec_ids,
            interleaved: self.interleaved,
            have_written_header: false,
            have_written_trailer: false,
        }
    }
}

/// One muxed packet's marching orders for the container writer: whether the
/// container header must be written first, and the routed packet (or why
/// none could be routed).
pub struct MuxStep {
    pub write_header_first: bool,
    pub routed: Result<Packet, Error>,
}

/// A muxer: maps media packets from their source streams onto the output
/// streams of a new container, without encoding or decoding.
///
/// Each [`Muxer::mux`] call routes one packet: the mapping picks the
/// destination stream, the timestamps are rescaled from the recorded source
/// time base into the destination stream's time base, and the byte position
/// is cleared, since it is meaningless across containers.
pub struct Muxer {
    pub mapping: Vec<(usize, StreamDescription)>,
    pub codec_ids: Vec<u32>,
    pub interleaved: bool,
    pub have_written_header: bool,
    pub have_written_trailer: bool,
}

/// What routing `packet` through mapping `entries` yields, when the
/// destination stream time bases are `tbs` (indexed by destination stream):
/// the packet rewritten to the destination stream with rescaled timestamps
/// and a cleared position, or `StreamNotFound` for an unmapped source
/// stream or a destination stream the writer does not have.
pub open spec fn spec_route(
    entries: Seq<(usize, StreamDescription)>,
    packet: Packet,
    tbs: Seq<Rational>,
) -> Result<Packet, Error> {
    match spec_lookup(entries, packet.stream_index) {
        Option::None => Result::Err(Error::StreamNotFound),
        Option::Some(description) => if description.index >= tbs.len() {
            Result::Err(Error::StreamNotFound)
        } else {
            let dest_tb = tbs[description.index as int];
            Result::Ok(
                Packet {
                    stream_index: description.index,
                    pts: match packet.pts {
                        Option::None => Option::None,
                        Option::Some(t) => Option::Some(
                            spec_rescale(t as int, description.source_time_base, dest_tb) as i64,
                        ),
                    },
                    dts: match packet.dts {
                        Option::None => Option::None,
                        Option::Some(t) => Option::Some(
                            spec_rescale(t as int, description.source_time_base, dest_tb) as i64,
                        ),
                    },
                    duration: spec_rescale(
                        packet.duration as int,
                        description.source_time_base,
                        dest_tb,
                    ) as i64,
                    position: -1i64,
                    key: packet.key,
                    time_base: dest_tb,
                },
            )
        },
    }
}

/// Looking a key up yields one of the stored descriptions, so any property
/// that holds of every entry holds of the result.
proof fn lemma_lookup_preserves_positive(entries: Seq<(usize, StreamDescription)>, key: usize)
    requires
        forall|i: int|
            0 <= i < entries.len() ==> (#[trigger] entries[i]).1.source_time_base.is_positive(),
    ensures
        spec_lookup(entries, key) matches Option::Some(d) ==> d.source_time_base.is_positive(),
    decreases entries.len(),
{
    if entries.len() > 0 && entries.last().0 != key {
        assert forall|i: int| 0 <= i < entries.drop_last().len() implies (
        #[trigger] entries.drop_last()[i]).1.source_time_base.is_positive() by {
            assert(entries.drop_last()[i] == entries[i]);
        }
        lemma_lookup_preserves_positive(entries.drop_last(), key);
    }
}

impl Muxer {
    /// Every recorded source time base can be rescaled through.
    pub open spec fn wf(self) -> bool {
        forall|i: int|
            0 <= i < self.mapping@.len() ==> (
            #[trigger] self.mapping@[i]).1.source_time_base.is_positive()
    }

    /// Mux a single packet.
    ///
    /// The returned step says whether the container header must be written
    /// first — that happens exactly on the first call — and carries the
    /// routed packet for the writer, rescaled into the destination stream's
    /// time base given by `dest_time_bases`.
    ///
    /// # Arguments
    ///
    /// * `packet` - Packet to mux.
    /// * `dest_time_bases` - The time base of each destination stream, by
    ///   destination stream index, as the container writer reports them.
    pub fn mux(&mut self, packet: Packet, dest_time_bases: &Vec<Rational>) -> (r: MuxStep)
        requires
            old(self).wf(),
            forall|i: int|
                0 <= i < dest_time_bases@.len() ==> (
                #[trigger] dest_time_bases@[i]).is_positive(),
        ensures
            r.write_header_first == !old(self).have_written_header,
            r.routed == spec_route(old(self).mapping@, packet, dest_time_bases@),
            *final(self) == (Muxer { have_written_header: true, ..*old(self) }),
    {
        let write_header_first = !self.have_written_header;
        self.have_written_header = true;
        proof {
            lemma_lookup_preserves_positive(self.mapping@, packet.stream_index);
        }
        let description = match self.lookup(packet.stream_index) {
            Option::Some(d) => d,
            Option::None => {
                return MuxStep { write_header_first, routed: Result::Err(Error::StreamNotFound) };
            },
        };
        if description.index >= dest_time_bases.len() {
            return MuxStep { write_header_first, routed: Result::Err(Error::StreamNotFound) };
        }
        let dest_tb = dest_time_bases[description.index];
        let source_tb = description.source_time_base;
        let routed = Packet {
            stream_index: description.index,
            pts: match packet.pts {
                Option::Some(t) => Option::Some(rescale_ticks(t, source_tb, dest_tb)),
                Option::None => Option::None,
            },
            dts: match packet.dts {
                Option::Some(t) => Option::Some(rescale_ticks(t, source_tb, dest_tb)),
                Option::None => Option::None,
            },
            duration: rescale_ticks(packet.duration, source_tb, dest_tb),
            position: -1i64,
            key: packet.key,
            time_base: dest_tb,
        };
        MuxStep { write_header_first, routed: Result::Ok(routed) }
    }

    /// Signal that writing has finished: the result says whether the
    /// container trailer must be written now. That happens at most once,
    /// and only if the header was ever written; repeated calls are no-ops.
    pub fn finish(&mut self) -> (r: bool)
        ensures
            r == spec_finish_step(old(self).have_written_header, old(self).have_written_trailer).0,
            final(self).have_written_trailer == spec_finish_step(
                old(self).have_written_header,
                old(self).have_written_trailer,
            ).1,
            *final(self) == (
            Muxer { have_written_trailer: final(self).have_written_trailer, ..*old(self) }),
    {
        if self.have_written_header && !self.have_written_trailer {
            self.have_written_trailer = true;
            true
        } else {
            false
        }
    }

    /// The mapping entry that applies to source stream `key`, with later
    /// entries replacing earlier ones.
    fn lookup(&self, key: usize) -> (r: Option<StreamDescription>)
        ensures
            r == spec_lookup(self.mapping@, key),
    {
        let mut i: usize = self.mapping.len();
        proof {
            assert(self.mapping@.take(self.mapping@.len() as int) =~= self.mapping@);
        }
        while i > 0
            invariant
                i <= self.mapping@.len(),
                spec_lookup(self.mapping@.take(i as int), key) == spec_lookup(self.mapping@, key),
            decreases i,
        {
            i = i - 1;
            let entry = self.mapping[i];
            proof {
                assert(self.mapping@.take(i + 1).last() == self.mapping@[i as int]);
                assert(self.mapping@.take(i + 1).drop_last() =~= self.mapping@.take(i as int));
            }
            if entry.0 == key {
                return Option::Some(entry.1);
            }
        }
        proof {
            assert(self.mapping@.take(0) =~= Seq::<(usize, StreamDescription)>::empty());
        }
        Option::None
    }

    /// Extract the H.264 parameter sets of every destination stream from
    /// the streams' codec configuration bytes, as the container reports
    /// them.
    ///
    /// Streams whose codec is not H.264 yield
    /// `UnsupportedCodecParameterSets`; malformed configuration bytes yield
    /// `InvalidExtraData`.
    ///
    /// # Arguments
    ///
    /// * `extradata` - The codec configuration bytes of each destination
    ///   stream, by destination stream index.
    pub fn parameter_sets_h264<'a>(&self, extradata: &'a Vec<Vec<u8>>) -> (r: Vec<
        Result<(Sps<'a>, Pps<'a>), Error>,
    >)
        requires
            extradata@.len() == self.codec_ids@.len(),
        ensures
            r@.len() == self.codec_ids@.len(),
            forall|i: int|
                0 <= i < r@.len() ==> spec_parameter_sets_entry(
                    self.codec_ids@[i],
                    extradata@[i]@,
                    #[trigger] r@[i],
                ),
    {
        let mut out: Vec<Result<(Sps<'a>, Pps<'a>), Error>> = Vec::new();
        let mut i: usize = 0;
        while i < self.codec_ids.len()
            invariant
                i <= self.codec_ids@.len(),
                extradata@.len() == self.codec_ids@.len(),
                out@.len() == i,
                forall|j: int|
                    0 <= j < i ==> spec_parameter_sets_entry(
                        self.codec_ids@[j],
                        extradata@[j]@,
                        #[trigger] out@[j],
                    ),
            decreases self.codec_ids@.len() - i,
        {
            if self.codec_ids[i] == H264_CODEC_ID {
                out.push(extract_parameter_sets_h264(extradata[i].as_slice()));
            } else {
                out.push(Result::Err(Error::UnsupportedCodecParameterSets));
            }
            i = i + 1;
        }
        out
    }
}

/// What parameter-set extraction yields for one stream: extraction of the
/// configuration bytes for H.264 streams, `UnsupportedCodecParameterSets`
/// for every other codec.
pub open spec fn spec_parameter_sets_entry(
    codec_id: u32,
    bytes: Seq<u8>,
    r: Result<(Sps<'_>, Pps<'_>), Error>,
) -> bool {
    if codec_id == H264_CODEC_ID {
        match r {
            Result::Ok(sets) => spec_extract_h264(bytes) == Option::Some(
                (sets.0@, seq_views(sets.1@)),
            ),
            Result::Err(e) => spec_extract_h264(bytes) is None && e == Error::InvalidExtraData,
        }
    } else {
        r == Result::<(Sps<'_>, Pps<'_>), Error>::Err(Error::UnsupportedCodecParameterSets)
    }
}

} // verus!
