//! The timing and routing fields of a stream packet.

use vstd::prelude::*;

use crate::time::{Rational, Time, rescale_ticks, spec_rescale};

verus! {

/// A stream packet as the coordination layer sees it: the stream index it is
/// bound to, its timestamps, its key-frame flag and the time base the
/// timestamps are expressed in. The compressed payload itself stays with the
/// codec engine; muxing reads and rewrites exactly these fields.
#[derive(Debug, Clone, PartialEq, Eq)]
pub struct Packet {
    pub stream_index: usize,
    pub pts: Option<i64>,
    pub dts: Option<i64>,
    pub duration: i64,
    pub position: i64,
    pub key: bool,
    pub time_base: Rational,
}

impl Packet {
    /// Create a packet record from its fields. The byte position starts out
    /// unset.
    pub fn new(
        stream_index: usize,
        pts: Option<i64>,
        dts: Option<i64>,
        duration: i64,
        key: bool,
        time_base: Rational,
    ) -> (r: Packet)
        ensures
            r == (Packet { stream_index, pts, dts, duration, position: -1i64, key, time_base }),
    {
        Packet { stream_index, pts, dts, duration, position: -1, key, time_base }
    }

    /// The packet presentation timestamp, in the packet's time base.
    pub fn pts(&self) -> (r: Time)
        ensures
            r == (Time { ticks: self.pts, time_base: self.time_base }),
    {
        Time::new(self.pts, self.time_base)
    }

    /// The packet decoder timestamp, in the packet's time base.
    pub fn dts(&self) -> (r: Time)
        ensures
            r == (Time { ticks: self.dts, time_base: self.time_base }),
    {
        Time::new(self.dts, self.time_base)
    }

    /// The packet duration, in the packet's time base.
    pub fn duration(&self) -> (r: Time)
        ensures
            r == (Time { ticks: Option::Some(self.duration), time_base: self.time_base }),
    {
        Time::new(Option::Some(self.duration), self.time_base)
    }

    /// Whether the packet carries a key frame.
    pub fn is_key(&self) -> (r: bool)
        ensures
            r == self.key,
    {
        self.key
    }

    /// Set the presentation timestamp: the given time is rescaled into the
    /// packet's own time base first.
    pub fn set_pts(&mut self, timestamp: &Time) -> (r: ())
        requires
            timestamp.ticks is Some ==> timestamp.time_base.is_positive() && old(
                self,
            ).time_base.is_positive(),
        ensures
            final(self).pts == timestamp.spec_with_time_base(old(self).time_base).ticks,
            *final(self) == (Packet { pts: final(self).pts, ..*old(self) }),
    {
        match timestamp.ticks {
            Option::Some(t) => {
                self.pts = Option::Some(rescale_ticks(t, timestamp.time_base, self.time_base));
            },
            Option::None => {
                self.pts = Option::None;
            },
        }
    }

    /// Set the decoder timestamp: the given time is rescaled into the
    /// packet's own time base first.
    pub fn set_dts(&mut self, timestamp: &Time) -> (r: ())
        requires
            timestamp.ticks is Some ==> timestamp.time_base.is_positive() && old(
                self,
            ).time_base.is_positive(),
        ensures
            final(self).dts == timestamp.spec_with_time_base(old(self).time_base).ticks,
            *final(self) == (Packet { dts: final(self).dts, ..*old(self) }),
    {
        match timestamp.ticks {
            Option::Some(t) => {
                self.dts = Option::Some(rescale_ticks(t, timestamp.time_base, self.time_base));
            },
            Option::None => {
                self.dts = Option::None;
            },
        }
    }

    /// Set the duration: the given time is rescaled into the packet's own
    /// time base first. A valueless time leaves the duration unchanged.
    pub fn set_duration(&mut self, timestamp: &Time) -> (r: ())
        requires
            timestamp.ticks is Some ==> timestamp.time_base.is_positive() && old(
                self,
            ).time_base.is_positive(),
        ensures
            timestamp.ticks is Some ==> final(self).duration == spec_rescale(
                timestamp.ticks->0 as int,
                timestamp.time_base,
                old(self).time_base,
            ),
            timestamp.ticks is None ==> final(self).duration == old(self).duration,
            *final(self) == (Packet { duration: final(self).duration, ..*old(self) }),
    {
        match timestamp.ticks {
            Option::Some(t) => {
                self.duration = rescale_ticks(t, timestamp.time_base, self.time_base);
            },
            Option::None => {},
        }
    }
}

/// `p` with every timestamp rescaled from base `from` into base `to`: each
/// present tick count of the presentation and decoder timestamps, and the
/// duration, move to the new base; stream binding, position and key flag
/// stay.
pub open spec fn spec_rescale_ts(p: Packet, from: Rational, to: Rational) -> Packet {
    Packet {
        pts: match p.pts {
            Option::None => Option::None,
            Option::Some(t) => Option::Some(spec_rescale(t as int, from, to) as i64),
        },
        dts: match p.dts {
            Option::None => Option::None,
            Option::Some(t) => Option::Some(spec_rescale(t as int, from, to) as i64),
        },
        duration: spec_rescale(p.duration as int, from, to) as i64,
        time_base: to,
        ..p
    }
}

impl Packet {
    /// Rescale every timestamp of the packet from base `from` into base
    /// `to`.
    pub fn rescale_ts(&mut self, from: Rational, to: Rational) -> (r: ())
        requires
            from.is_positive(),
            to.is_positive(),
        ensures
            *final(self) == spec_rescale_ts(*old(self), from, to),
    {
        match self.pts {
            Option::Some(t) => {
                self.pts = Option::Some(rescale_ticks(t, from, to));
            },
            Option::None => {},
        }
        match self.dts {
            Option::Some(t) => {
                self.dts = Option::Some(rescale_ticks(t, from, to));
            },
            Option::None => {},
        }
        self.duration = rescale_ticks(self.duration, from, to);
        self.time_base = to;
    }
}

} // verus!
