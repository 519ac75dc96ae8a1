//! Extraction of H.264 parameter sets from a stream's out-of-band codec
//! configuration bytes.
//!
//! Two encodings are supported: the length-prefixed record format (used by
//! non-live containers, where the configuration starts with `0x01`) and the
//! start-code-delimited bitstream format (used in live streaming, starting
//! with `0x00`). Malformed input — any length field that would read past the
//! buffer, a delimited unit with no content, or a missing sequence parameter
//! set — is rejected, never read out of bounds.

use vstd::prelude::*;
use vstd::slice::slice_subrange;

use crate::error::Error;

verus! {

/// A borrowed byte-stream representation of an H.264 Sequence Parameter Set
/// (SPS). The bytes are handed to the caller undeserialized.
pub type Sps<'buf> = &'buf [u8];

/// Borrowed byte-stream representations of H.264 Picture Parameter Sets
/// (PPSs). A stream has one SPS but may have any number of PPSs.
pub type Pps<'buf> = Vec<&'buf [u8]>;

/// The big-endian 16-bit value of two bytes.
pub open spec fn spec_u16_be(hi: u8, lo: u8) -> int {
    hi * 256 + lo
}

/// The views of a sequence of borrowed byte slices.
pub open spec fn seq_views(s: Seq<&[u8]>) -> Seq<Seq<u8>> {
    s.map_values(|x: &[u8]| x@)
}

/// `opt` with `pre` prepended to its content, absence kept.
pub open spec fn opt_prepend(pre: Seq<Seq<u8>>, opt: Option<Seq<Seq<u8>>>) -> Option<
    Seq<Seq<u8>>,
> {
    match opt {
        Option::None => Option::None,
        Option::Some(s) => Option::Some(pre + s),
    }
}

/// Parse `n` length-prefixed picture parameter sets starting at position `p`
/// of `b`: each entry is a big-endian 16-bit length followed by that many
/// bytes. `None` when any length would read past the end of the buffer.
pub open spec fn spec_parse_pps_entries(b: Seq<u8>, p: int, n: int) -> Option<Seq<Seq<u8>>>
    decreases n,
    when n >= 0
{
    if n == 0 {
        Option::Some(Seq::empty())
    } else if b.len() - p < 2 {
        Option::None
    } else {
        let size = spec_u16_be(b[p], b[p + 1]);
        if b.len() - (p + 2) < size {
            Option::None
        } else {
            match spec_parse_pps_entries(b, p + 2 + size, n - 1) {
                Option::None => Option::None,
                Option::Some(rest) => Option::Some(
                    seq![b.subrange(p + 2, p + 2 + size)] + rest,
                ),
            }
        }
    }
}

/// Parse the length-prefixed record format: a fixed preamble, a 16-bit SPS
/// length at bytes 6 and 7, the SPS itself, then a PPS count followed by
/// length-prefixed PPS entries. `None` on any length that would read past
/// the buffer or when nothing follows the SPS.
pub open spec fn spec_parse_avcc(b: Seq<u8>) -> Option<(Seq<u8>, Seq<Seq<u8>>)> {
    if b.len() <= 8 {
        Option::None
    } else {
        let sps_size = spec_u16_be(b[6], b[7]);
        if b.len() < 8 + sps_size {
            Option::None
        } else if b.len() - (8 + sps_size) <= 1 {
            Option::None
        } else {
            match spec_parse_pps_entries(b, 8 + sps_size + 1, b[8 + sps_size] as int) {
                Option::None => Option::None,
                Option::Some(pps) => Option::Some((b.subrange(8, 8 + sps_size), pps)),
            }
        }
    }
}

/// Scan for a start code from position `j`; the scan never starts within
/// the last three bytes. `Some((start, end))` gives the first byte of the
/// start code and the first byte after it.
pub open spec fn spec_scan_start_code(b: Seq<u8>, j: int) -> Option<(int, int)>
    decreases b.len() - j,
    when j >= 0
{
    if j >= b.len() - 3 {
        Option::None
    } else if b[j] == 0 && b[j + 1] == 0 && b[j + 2] == 1 {
        Option::Some((j, j + 3))
    } else if j + 4 <= b.len() && b[j] == 0 && b[j + 1] == 0 && b[j + 2] == 0 && b[j + 3] == 1 {
        Option::Some((j, j + 4))
    } else {
        spec_scan_start_code(b, j + 1)
    }
}

/// The first three- or four-byte start code at or after `offset`, if the
/// remainder of the buffer is long enough to hold one.
pub open spec fn spec_find_start_code(b: Seq<u8>, offset: int) -> Option<(int, int)> {
    if b.len() - offset >= 3 {
        spec_scan_start_code(b, offset)
    } else {
        Option::None
    }
}

/// Walk the start-code-delimited units beginning at `idx` (the first byte
/// after a start code), keeping the first SPS found and every PPS found.
/// `None` for a unit with no content or when no SPS is found.
pub open spec fn spec_annexb_walk(
    b: Seq<u8>,
    idx: int,
    sps: Option<Seq<u8>>,
    pps: Seq<Seq<u8>>,
) -> Option<(Seq<u8>, Seq<Seq<u8>>)>
    decreases b.len() - idx,
    when 0 <= idx <= b.len()
{
    let end = match spec_find_start_code(b, idx) {
        Option::Some(p) => p.0,
        Option::None => b.len() as int,
    };
    if end <= idx {
        Option::None
    } else {
        let nal_type = b[idx] & 0x1f;
        let sps2 = if nal_type == 7 && sps is None {
            Option::Some(b.subrange(idx, end))
        } else {
            sps
        };
        let pps2 = if nal_type == 8 {
            pps + seq![b.subrange(idx, end)]
        } else {
            pps
        };
        match spec_find_start_code(b, idx) {
            Option::None => match sps2 {
                Option::Some(s) => Option::Some((s, pps2)),
                Option::None => Option::None,
            },
            // a found start code always lies ahead of `idx`, so the guard
            // only keeps the recursion visibly well-founded
            Option::Some(p) => if idx < p.1 <= b.len() {
                spec_annexb_walk(b, p.1, sps2, pps2)
            } else {
                Option::None
            },
        }
    }
}

/// Parse the start-code-delimited bitstream format: every unit between
/// start codes is classified by its type nibble; the first SPS and all PPS
/// units are kept. `None` when no start code or no SPS exists.
pub open spec fn spec_parse_annexb(b: Seq<u8>) -> Option<(Seq<u8>, Seq<Seq<u8>>)> {
    match spec_find_start_code(b, 0) {
        Option::None => Option::None,
        Option::Some(p) => spec_annexb_walk(b, p.1, Option::None, Seq::empty()),
    }
}

/// What parameter-set extraction yields: the first byte selects the
/// encoding, anything else is malformed.
pub open spec fn spec_extract_h264(b: Seq<u8>) -> Option<(Seq<u8>, Seq<Seq<u8>>)> {
    if b.len() == 0 {
        Option::None
    } else if b[0] == 0x00 {
        spec_parse_annexb(b)
    } else if b[0] == 0x01 {
        spec_parse_avcc(b)
    } else {
        Option::None
    }
}

/// Extract the Sequence Parameter Set (SPS) and Picture Parameter Sets
/// (PPSs) from the H.264 codec configuration bytes of a stream.
///
/// # Arguments
///
/// * `extradata_bytes` - Borrowed slice holding the configuration bytes.
///
/// # Return value
///
/// The SPS and PPSs, or `InvalidExtraData` for malformed input.
pub fn extract_parameter_sets_h264<'buf>(
    extradata_bytes: &'buf [u8],
) -> (r: Result<(Sps<'buf>, Pps<'buf>), Error>)
    ensures
        match r {
            Result::Ok(sets) => spec_extract_h264(extradata_bytes@) == Option::Some(
                (sets.0@, seq_views(sets.1@)),
            ),
            Result::Err(e) => spec_extract_h264(extradata_bytes@) is None && e
                == Error::InvalidExtraData,
        },
{
    if extradata_bytes.len() > 0 {
        let first = extradata_bytes[0];
        if first == 0x00 {
            extract_parameter_sets_from_extradata_h264_avc_annexb(extradata_bytes)
        } else if first == 0x01 {
            extract_parameter_sets_from_extradata_h264_avcc(extradata_bytes)
        } else {
            Result::Err(Error::InvalidExtraData)
        }
    } else {
        Result::Err(Error::InvalidExtraData)
    }
}

/// Extract parameter sets from the length-prefixed record format, most
/// commonly used by containers that carry the parameter sets at the start
/// of the stream.
pub fn extract_parameter_sets_from_extradata_h264_avcc<'buf>(
    bytes: &'buf [u8],
) -> (r: Result<(Sps<'buf>, Pps<'buf>), Error>)
    ensures
        match r {
            Result::Ok(sets) => spec_parse_avcc(bytes@) == Option::Some(
                (sets.0@, seq_views(sets.1@)),
            ),
            Result::Err(e) => spec_parse_avcc(bytes@) is None && e == Error::InvalidExtraData,
        },
{
    if bytes.len() <= 8 {
        return Result::Err(Error::InvalidExtraData);
    }
    let sps_size: usize = (bytes[6] as usize) * 256 + (bytes[7] as usize);
    if bytes.len() < 8 + sps_size {
        return Result::Err(Error::InvalidExtraData);
    }
    let sps: &[u8] = slice_subrange(bytes, 8, 8 + sps_size);
    if bytes.len() - (8 + sps_size) <= 1 {
        return Result::Err(Error::InvalidExtraData);
    }
    let pps_num = bytes[8 + sps_size];
    let ghost p0: int = 8 + sps_size + 1;
    let mut ppss: Vec<&'buf [u8]> = Vec::new();
    let mut pps_p: usize = 8 + sps_size + 1;
    let mut i: u8 = 0;
    proof {
        assert(seq_views(ppss@) =~= Seq::<Seq<u8>>::empty());
        match spec_parse_pps_entries(bytes@, p0, pps_num as int) {
            Option::Some(all) => {
                assert(seq_views(ppss@) + all =~= all);
            },
            Option::None => {},
        }
    }
    while i < pps_num
        invariant
            8 + sps_size + 1 <= pps_p <= bytes.len(),
            i <= pps_num,
            p0 == 8 + sps_size + 1,
            sps@ == bytes@.subrange(8, 8 + sps_size as int),
            bytes.len() > 8 + sps_size + 1,
            sps_size == spec_u16_be(bytes[6], bytes[7]),
            pps_num == bytes[8 + sps_size],
            seq_views(ppss@).len() == i,
            opt_prepend(
                seq_views(ppss@),
                spec_parse_pps_entries(bytes@, pps_p as int, pps_num - i),
            ) == spec_parse_pps_entries(bytes@, p0, pps_num as int),
        decreases pps_num - i,
    {
        if bytes.len() - pps_p < 2 {
            return Result::Err(Error::InvalidExtraData);
        }
        let pps_size: usize = (bytes[pps_p] as usize) * 256 + (bytes[pps_p + 1] as usize);
        if bytes.len() - (pps_p + 2) < pps_size {
            return Result::Err(Error::InvalidExtraData);
        }
        let pps: &[u8] = slice_subrange(bytes, pps_p + 2, pps_p + 2 + pps_size);
        let ghost old_views = seq_views(ppss@);
        let ghost old_p = pps_p as int;
        ppss.push(pps);
        pps_p = pps_p + 2 + pps_size;
        proof {
            assert(seq_views(ppss@) =~= old_views + seq![pps@]);
            match spec_parse_pps_entries(bytes@, pps_p as int, pps_num - (i + 1)) {
                Option::Some(rest) => {
                    assert(spec_parse_pps_entries(bytes@, old_p, pps_num - i) == Option::Some(
                        seq![pps@] + rest,
                    ));
                    assert(old_views + (seq![pps@] + rest) =~= seq_views(ppss@) + rest);
                },
                Option::None => {
                    assert(spec_parse_pps_entries(bytes@, old_p, pps_num - i) is None);
                },
            }
        }
        i = i + 1;
    }
    proof {
        assert(spec_parse_pps_entries(bytes@, pps_p as int, 0) == Option::Some(
            Seq::<Seq<u8>>::empty(),
        ));
        assert(seq_views(ppss@) + Seq::<Seq<u8>>::empty() =~= seq_views(ppss@));
    }
    Result::Ok((sps, ppss))
}

/// Find the next start code: either two zero bytes followed by `0x01`, or
/// three zero bytes followed by `0x01`.
///
/// # Arguments
///
/// * `bytes` - Byte slice to find a start code in.
/// * `offset` - Position in the slice to start looking from.
///
/// # Return value
///
/// `Some((start, end))` where `start` is the index of the first byte of the
/// start code and `end` the index of the first byte after it; `None` when
/// no start code was found.
pub fn find_avc_start_code(bytes: &[u8], offset: usize) -> (r: Option<(usize, usize)>)
    requires
        offset <= bytes.len(),
    ensures
        match r {
            Option::Some(p) => spec_find_start_code(bytes@, offset as int) == Option::Some(
                (p.0 as int, p.1 as int),
            ) && offset <= p.0 && p.0 < p.1 <= bytes.len(),
            Option::None => spec_find_start_code(bytes@, offset as int) is None,
        },
{
    if bytes.len() - offset >= 3 {
        let mut j: usize = offset;
        while j < bytes.len() - 3
            invariant
                offset <= j <= bytes.len() - 3,
                bytes.len() - offset >= 3,
                spec_scan_start_code(bytes@, j as int) == spec_scan_start_code(
                    bytes@,
                    offset as int,
                ),
            decreases bytes.len() - j,
        {
            if bytes[j] == 0x00 && bytes[j + 1] == 0x00 && bytes[j + 2] == 0x01 {
                return Option::Some((j, j + 3));
            } else if j + 4 <= bytes.len() && bytes[j] == 0x00 && bytes[j + 1] == 0x00 && bytes[j
                + 2] == 0x00 && bytes[j + 3] == 0x01 {
                return Option::Some((j, j + 4));
            }
            j = j + 1;
        }
        Option::None
    } else {
        Option::None
    }
}

/// Extract parameter sets from the start-code-delimited bitstream format,
/// commonly used in live-streaming contexts.
pub fn extract_parameter_sets_from_extradata_h264_avc_annexb<'buf>(
    bytes: &'buf [u8],
) -> (r: Result<(Sps<'buf>, Pps<'buf>), Error>)
    ensures
        match r {
            Result::Ok(sets) => spec_parse_annexb(bytes@) == Option::Some(
                (sets.0@, seq_views(sets.1@)),
            ),
            Result::Err(e) => spec_parse_annexb(bytes@) is None && e == Error::InvalidExtraData,
        },
{
    let mut index_current: Option<usize> = match find_avc_start_code(bytes, 0) {
        Option::Some(p) => Option::Some(p.1),
        Option::None => Option::None,
    };
    let mut sps: Option<&'buf [u8]> = Option::None;
    let mut pps: Vec<&'buf [u8]> = Vec::new();
    proof {
        assert(seq_views(pps@) =~= Seq::<Seq<u8>>::empty());
    }
    while index_current.is_some()
        invariant
            match index_current {
                Option::Some(idx) => idx <= bytes.len() && spec_annexb_walk(
                    bytes@,
                    idx as int,
                    match sps {
                        Option::Some(s) => Option::Some(s@),
                        Option::None => Option::None,
                    },
                    seq_views(pps@),
                ) == spec_parse_annexb(bytes@),
                Option::None => spec_parse_annexb(bytes@) == (match sps {
                    Option::Some(s) => Option::Some((s@, seq_views(pps@))),
                    Option::None => Option::<(Seq<u8>, Seq<Seq<u8>>)>::None,
                }),
            },
        decreases
                match index_current {
                    Option::Some(idx) => bytes.len() - idx + 1,
                    Option::None => 0int,
                },
    {
        let index = index_current.unwrap();
        let (end, index_next) = match find_avc_start_code(bytes, index) {
            Option::Some(p) => (p.0, Option::Some(p.1)),
            Option::None => (bytes.len(), Option::None),
        };
        if end <= index {
            return Result::Err(Error::InvalidExtraData);
        }
        let nal: &[u8] = slice_subrange(bytes, index, end);
        let nal_type = nal[0] & 0x1f;
        if nal_type == 0x07 {
            if sps.is_none() {
                sps = Option::Some(nal);
            }
        } else if nal_type == 0x08 {
            let ghost old_views = seq_views(pps@);
            pps.push(nal);
            proof {
                assert(seq_views(pps@) =~= old_views + seq![nal@]);
            }
        }
        index_current = index_next;
    }
    match sps {
        Option::Some(s) => Result::Ok((s, pps)),
        Option::None => Result::Err(Error::InvalidExtraData),
    }
}

} // verus!
