//! Hybrid logical clock: wall-clock milliseconds paired with a logical
//! counter that breaks ties when wall time does not advance.

use vstd::prelude::*;

use crate::ids::DeviceId;

verus! {

/// A point in hybrid logical time, ordered first by wall time and then by the
/// logical counter.
#[derive(Clone, Copy, Debug, PartialEq, Eq, Structural, PartialOrd, Ord, Hash)]
pub struct Timestamp {
    pub wall_time_ms: u64,
    pub logical: u32,
}

/// `a` comes no later than `b` in hybrid logical time.
pub open spec fn ts_le(a: Timestamp, b: Timestamp) -> bool {
    a.wall_time_ms < b.wall_time_ms || (a.wall_time_ms == b.wall_time_ms && a.logical <= b.logical)
}

/// `a` comes strictly before `b` in hybrid logical time.
pub open spec fn ts_lt(a: Timestamp, b: Timestamp) -> bool {
    a.wall_time_ms < b.wall_time_ms || (a.wall_time_ms == b.wall_time_ms && a.logical < b.logical)
}

/// Adds one to a logical counter, staying at the maximum once it is reached.
pub open spec fn saturating_inc(x: u32) -> u32 {
    if x == u32::MAX {
        x
    } else {
        (x + 1) as u32
    }
}

/// The timestamp a clock whose latest timestamp is `last` issues for a local
/// event at wall time `wall`.
pub open spec fn tick_result(last: Timestamp, wall: u64) -> Timestamp {
    if wall > last.wall_time_ms {
        Timestamp { wall_time_ms: wall, logical: 0 }
    } else {
        Timestamp { wall_time_ms: last.wall_time_ms, logical: saturating_inc(last.logical) }
    }
}

pub open spec fn max_u64(a: u64, b: u64) -> u64 {
    if a >= b {
        a
    } else {
        b
    }
}

pub open spec fn max_u32(a: u32, b: u32) -> u32 {
    if a >= b {
        a
    } else {
        b
    }
}

/// The timestamp a clock whose latest timestamp is `last` issues when it
/// receives `remote` at wall time `wall`.
pub open spec fn observe_result(last: Timestamp, remote: Timestamp, wall: u64) -> Timestamp {
    let max_wall = max_u64(max_u64(last.wall_time_ms, remote.wall_time_ms), wall);
    let logical = if max_wall == last.wall_time_ms && max_wall == remote.wall_time_ms {
        saturating_inc(max_u32(last.logical, remote.logical))
    } else if max_wall == last.wall_time_ms {
        saturating_inc(last.logical)
    } else if max_wall == remote.wall_time_ms {
        saturating_inc(remote.logical)
    } else {
        0
    };
    Timestamp { wall_time_ms: max_wall, logical }
}

impl Default for Timestamp {
    fn default() -> (res: Self)
        ensures
            res == (Timestamp { wall_time_ms: 0, logical: 0 }),
    {
        Timestamp { wall_time_ms: 0, logical: 0 }
    }
}

/// A hybrid logical clock owned by one device.
#[derive(Clone, Debug, PartialEq, Eq)]
pub struct HybridLogicalClock {
    device_id: DeviceId,
    last: Timestamp,
}

impl HybridLogicalClock {
    /// The device that owns this clock.
    pub closed spec fn owner(&self) -> Seq<char> {
        self.device_id@
    }

    /// The latest timestamp this clock has issued.
    pub closed spec fn latest(&self) -> Timestamp {
        self.last
    }

    /// A clock for `device_id` that has issued nothing yet.
    pub fn new(device_id: DeviceId) -> (res: Self)
        ensures
            res.owner() == device_id@,
            res.latest() == (Timestamp { wall_time_ms: 0, logical: 0 }),
    {
        HybridLogicalClock { device_id, last: Timestamp::default() }
    }

    /// Issues the timestamp of a local event happening at `wall_time_ms`.
    pub fn tick(&mut self, wall_time_ms: u64) -> (res: Timestamp)
        ensures
            res == tick_result(old(self).latest(), wall_time_ms),
            final(self).latest() == res,
            final(self).owner() == old(self).owner(),
    {
        if wall_time_ms > self.last.wall_time_ms {
            self.last = Timestamp { wall_time_ms, logical: 0 };
        } else {
            self.last.logical = self.last.logical.saturating_add(1);
        }
        self.last
    }

    /// Issues the timestamp for receiving `remote` at `wall_time_ms`.
    pub fn observe(&mut self, remote: Timestamp, wall_time_ms: u64) -> (res: Timestamp)
        ensures
            res == observe_result(old(self).latest(), remote, wall_time_ms),
            final(self).latest() == res,
            final(self).owner() == old(self).owner(),
    {
        let mut max_wall = self.last.wall_time_ms;
        if remote.wall_time_ms > max_wall {
            max_wall = remote.wall_time_ms;
        }
        if wall_time_ms > max_wall {
            max_wall = wall_time_ms;
        }
        let logical = if max_wall == self.last.wall_time_ms && max_wall == remote.wall_time_ms {
            let larger = if self.last.logical >= remote.logical {
                self.last.logical
            } else {
                remote.logical
            };
            larger.saturating_add(1)
        } else if max_wall == self.last.wall_time_ms {
            self.last.logical.saturating_add(1)
        } else if max_wall == remote.wall_time_ms {
            remote.logical.saturating_add(1)
        } else {
            0
        };
        self.last = Timestamp { wall_time_ms: max_wall, logical };
        self.last
    }

    /// The device that owns this clock.
    pub fn device_id(&self) -> (res: &DeviceId)
        ensures
            res@ == self.owner(),
    {
        &self.device_id
    }

    /// The latest timestamp this clock has issued.
    pub fn last(&self) -> (res: Timestamp)
        ensures
            res == self.latest(),
    {
        self.last
    }
}

/// A clock never goes backwards on a local event: the new timestamp is no
/// earlier than the previous one and no earlier than the wall time read, and
/// it is strictly later unless the logical counter is exhausted while wall
/// time stands still.
pub proof fn lemma_tick_monotonic(last: Timestamp, wall: u64)
    ensures
        ts_le(last, tick_result(last, wall)),
        tick_result(last, wall).wall_time_ms >= wall,
        tick_result(last, wall).wall_time_ms == max_u64(last.wall_time_ms, wall),
        tick_result(last, wall).wall_time_ms >= last.wall_time_ms,
        tick_result(last, wall).wall_time_ms == last.wall_time_ms || tick_result(last, wall).wall_time_ms
            == wall,
        !(wall <= last.wall_time_ms && last.logical == u32::MAX) ==> ts_lt(
            last,
            tick_result(last, wall),
        ),
{
}

/// Receiving a remote timestamp moves the clock past both its own latest
/// timestamp and the remote one (strictly, unless a logical counter is
/// exhausted), and never behind the wall time read.
pub proof fn lemma_observe_dominates(last: Timestamp, remote: Timestamp, wall: u64)
    ensures
        ts_le(last, observe_result(last, remote, wall)),
        ts_le(remote, observe_result(last, remote, wall)),
        observe_result(last, remote, wall).wall_time_ms >= wall,
        observe_result(last, remote, wall).wall_time_ms >= last.wall_time_ms,
        observe_result(last, remote, wall).wall_time_ms >= remote.wall_time_ms,
        observe_result(last, remote, wall).wall_time_ms == wall || observe_result(last, remote, wall).wall_time_ms
            == last.wall_time_ms || observe_result(last, remote, wall).wall_time_ms == remote.wall_time_ms,
        last.logical < u32::MAX && remote.logical < u32::MAX ==> ts_lt(
            last,
            observe_result(last, remote, wall),
        ) && ts_lt(remote, observe_result(last, remote, wall)),
{
}

/// Hybrid logical order is a total order.
pub proof fn lemma_timestamp_order(a: Timestamp, b: Timestamp, c: Timestamp)
    ensures
        ts_le(a, a),
        ts_le(a, b) || ts_le(b, a),
        ts_le(a, b) && ts_le(b, a) ==> a == b,
        ts_le(a, b) && ts_le(b, c) ==> ts_le(a, c),
        ts_lt(a, b) <==> ts_le(a, b) && a != b,
        a.wall_time_ms < b.wall_time_ms ==> ts_lt(a, b),
        a.wall_time_ms == b.wall_time_ms ==> (ts_le(a, b) <==> a.logical <= b.logical),
{
}

} // verus!
