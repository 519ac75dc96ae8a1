//! Key-value option sets handed to the codec engine.

use vstd::prelude::*;

verus! {

/// The option entries as pairs of character sequences.
pub open spec fn entry_views(s: Seq<(String, String)>) -> Seq<(Seq<char>, Seq<char>)> {
    s.map_values(|e: (String, String)| (e.0@, e.1@))
}

/// The entries that prefer TCP transport for RTSP reading.
pub open spec fn spec_preset_rtsp_transport_tcp() -> Seq<(Seq<char>, Seq<char>)> {
    seq![("rtsp_transport"@, "tcp"@)]
}

/// The entries that prefer TCP transport for RTSP reading and lower the
/// socket and I/O timeouts.
pub open spec fn spec_preset_rtsp_transport_tcp_and_sane_timeouts() -> Seq<
    (Seq<char>, Seq<char>),
> {
    seq![("rtsp_transport"@, "tcp"@), ("rw_timeout"@, "16000000"@), ("stimeout"@, "16000000"@)]
}

/// The entries that instruct the muxer to produce fragmented output.
pub open spec fn spec_preset_fragmented_mov() -> Seq<(Seq<char>, Seq<char>)> {
    seq![("movflags"@, "faststart+frag_keyframe+frag_custom+empty_moov+omit_tfhd_offset"@)]
}

/// The default entries for an H.264 encoder.
pub open spec fn spec_preset_h264() -> Seq<(Seq<char>, Seq<char>)> {
    seq![("preset"@, "medium"@)]
}

/// The entries for an H.264 encoder tuned for low-latency encoding.
pub open spec fn spec_preset_h264_realtime() -> Seq<(Seq<char>, Seq<char>)> {
    seq![("preset"@, "medium"@), ("tune"@, "zerolatency"@)]
}

/// A set of options for the codec engine: ordered key-value pairs of plain
/// text, handed over verbatim when a reader, writer or encoder is opened.
#[derive(Debug, Clone)]
pub struct Options {
    entries: Vec<(String, String)>,
}

impl Options {
    /// The option entries, in order.
    pub closed spec fn spec_entries(self) -> Seq<(String, String)> {
        self.entries@
    }

    /// The option entries, in order.
    pub fn entries(&self) -> (r: &Vec<(String, String)>)
        ensures
            r@ == self.spec_entries(),
    {
        &self.entries
    }

    /// An option set holding exactly the given key-value pairs, in order.
    pub fn from_pairs(pairs: Vec<(String, String)>) -> (r: Options)
        ensures
            r.spec_entries() == pairs@,
    {
        Options { entries: pairs }
    }

    /// Options that make the engine prefer TCP transport when reading an
    /// RTSP stream, over the default UDP transport.
    pub fn preset_rtsp_transport_tcp() -> (r: Options)
        ensures
            entry_views(r.spec_entries()) == spec_preset_rtsp_transport_tcp(),
    {
        let mut entries: Vec<(String, String)> = Vec::new();
        entries.push((String::from_str("rtsp_transport"), String::from_str("tcp")));
        let r = Options { entries };
        proof {
            assert(entry_views(r.spec_entries()) =~= spec_preset_rtsp_transport_tcp());
        }
        r
    }

    /// Options that prefer TCP transport for RTSP reading and also lower
    /// the socket and I/O timeouts to saner values.
    pub fn preset_rtsp_transport_tcp_and_sane_timeouts() -> (r: Options)
        ensures
            entry_views(r.spec_entries()) == spec_preset_rtsp_transport_tcp_and_sane_timeouts(),
    {
        let mut entries: Vec<(String, String)> = Vec::new();
        entries.push((String::from_str("rtsp_transport"), String::from_str("tcp")));
        entries.push((String::from_str("rw_timeout"), String::from_str("16000000")));
        entries.push((String::from_str("stimeout"), String::from_str("16000000")));
        let r = Options { entries };
        proof {
            assert(entry_views(r.spec_entries())
                =~= spec_preset_rtsp_transport_tcp_and_sane_timeouts());
        }
        r
    }

    /// Options that instruct the engine to fragment output when muxing, so
    /// that each fragment can be streamed without a leading header.
    pub fn preset_fragmented_mov() -> (r: Options)
        ensures
            entry_views(r.spec_entries()) == spec_preset_fragmented_mov(),
    {
        let mut entries: Vec<(String, String)> = Vec::new();
        entries.push(
            (
                String::from_str("movflags"),
                String::from_str("faststart+frag_keyframe+frag_custom+empty_moov+omit_tfhd_offset"),
            ),
        );
        let r = Options { entries };
        proof {
            assert(entry_views(r.spec_entries()) =~= spec_preset_fragmented_mov());
        }
        r
    }

    /// Default options for an H.264 encoder.
    pub fn preset_h264() -> (r: Options)
        ensures
            entry_views(r.spec_entries()) == spec_preset_h264(),
    {
        let mut entries: Vec<(String, String)> = Vec::new();
        entries.push((String::from_str("preset"), String::from_str("medium")));
        let r = Options { entries };
        proof {
            assert(entry_views(r.spec_entries()) =~= spec_preset_h264());
        }
        r
    }

    /// Options for an H.264 encoder tuned for low-latency encoding, such as
    /// real-time streaming.
    pub fn preset_h264_realtime() -> (r: Options)
        ensures
            entry_views(r.spec_entries()) == spec_preset_h264_realtime(),
    {
        let mut entries: Vec<(String, String)> = Vec::new();
        entries.push((String::from_str("preset"), String::from_str("medium")));
        entries.push((String::from_str("tune"), String::from_str("zerolatency")));
        let r = Options { entries };
        proof {
            assert(entry_views(r.spec_entries()) =~= spec_preset_h264_realtime());
        }
        r
    }
}

impl Default for Options {
    /// An empty option set.
    fn default() -> (r: Options)
        ensures
            r.spec_entries() == Seq::<(String, String)>::empty(),
    {
        let r = Options { entries: Vec::new() };
        proof {
            assert(r.spec_entries() =~= Seq::<(String, String)>::empty());
        }
        r
    }
}

} // verus!
