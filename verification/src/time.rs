//! Moments in time, and the lengths of time between them.

use vstd::arithmetic::div_mod::{lemma_fundamental_div_mod, lemma_fundamental_div_mod_converse};
use vstd::prelude::*;
use vstd::string::*;

verus! {

/// A moment in time, counted in nanoseconds since the Unix epoch.
#[derive(Clone, Copy, Debug, PartialEq, Eq, Structural)]
pub struct Timestamp {
    pub unix_nanos: i128,
}

/// The nanoseconds in one second.
pub const NANOS_PER_SEC: u32 = 1_000_000_000;

impl Timestamp {
    /// The whole seconds since the Unix epoch: before the epoch, the
    /// seconds are counted down from it.
    pub open spec fn seconds(self) -> int {
        (self.unix_nanos as int) / (NANOS_PER_SEC as int)
    }

    /// The nanoseconds beyond the whole seconds.
    pub open spec fn subsec_nanos(self) -> int {
        (self.unix_nanos as int) % (NANOS_PER_SEC as int)
    }

    /// The moment that lies `nanos` nanoseconds after the second `secs`.
    pub fn from_parts(secs: i64, nanos: u32) -> (t: Timestamp)
        ensures
            t.unix_nanos == secs * NANOS_PER_SEC + nanos,
    {
        let second: i128 = NANOS_PER_SEC as i128;
        assert(i64::MIN * 1_000_000_000 <= secs * second <= i64::MAX * 1_000_000_000)
            by (nonlinear_arith)
            requires
                second == 1_000_000_000,
                i64::MIN <= secs <= i64::MAX,
        ;
        Timestamp { unix_nanos: (secs as i128) * second + (nanos as i128) }
    }

    /// The whole seconds since the Unix epoch and the nanoseconds beyond
    /// them, where the seconds fit in 64 bits.
    pub fn parts(&self) -> (parts: Option<(i64, u32)>)
        ensures
            match parts {
                Some((secs, nanos)) => secs == self.seconds() && nanos == self.subsec_nanos(),
                None => self.seconds() < i64::MIN || self.seconds() > i64::MAX,
            },
    {
        let second: i128 = NANOS_PER_SEC as i128;
        let secs: i128;
        let nanos: i128;
        if self.unix_nanos >= 0 {
            secs = self.unix_nanos / second;
            nanos = self.unix_nanos % second;
        } else {
            let below: i128 = -(self.unix_nanos + 1);
            let whole: i128 = below / second;
            let rest: i128 = below % second;
            secs = -whole - 1;
            nanos = second - 1 - rest;
            proof {
                lemma_fundamental_div_mod(below as int, second as int);
                assert(self.unix_nanos == secs * second + nanos) by (nonlinear_arith)
                    requires
                        below == -(self.unix_nanos + 1),
                        below == second * whole + rest,
                        secs == -whole - 1,
                        nanos == second - 1 - rest,
                ;
                lemma_fundamental_div_mod_converse(
                    self.unix_nanos as int,
                    second as int,
                    secs as int,
                    nanos as int,
                );
            }
        }
        if secs < i64::MIN as i128 || secs > i64::MAX as i128 {
            None
        } else {
            Some((secs as i64, nanos as u32))
        }
    }
}

impl Default for Timestamp {
    /// The Unix epoch.
    fn default() -> (t: Timestamp)
        ensures
            t.unix_nanos == 0,
    {
        Timestamp { unix_nanos: 0 }
    }
}

/// A length of time: whole seconds, and the nanoseconds beyond them.
#[derive(Clone, Copy, Debug, PartialEq, Eq, Structural)]
pub struct Elapsed {
    pub secs: u64,
    pub nanos: u32,
}

/// Says that a length of time is negative, or longer than `Elapsed` can
/// hold in whole seconds.
#[derive(Clone, Copy, Debug, PartialEq, Eq, Structural)]
pub struct OutOfRange;

impl OutOfRange {
    /// What the error says.
    pub open spec fn text() -> Seq<char> {
        "Source duration value is out of range for the target type"@
    }

    /// What the error says.
    pub fn message(&self) -> (text: String)
        ensures
            text@ == OutOfRange::text(),
    {
        String::from_str("Source duration value is out of range for the target type")
    }
}

/// The longest time, in nanoseconds, that `Elapsed` can hold with less
/// than a second's worth of nanoseconds.
pub open spec fn longest() -> int {
    u64::MAX * NANOS_PER_SEC + (NANOS_PER_SEC - 1)
}

/// A number of nanoseconds as whole seconds and the rest, where it is not
/// negative and the seconds can be held.
pub open spec fn split(nanos: int) -> Option<Elapsed> {
    if 0 <= nanos <= longest() {
        Some(
            Elapsed {
                secs: (nanos / (NANOS_PER_SEC as int)) as u64,
                nanos: (nanos % (NANOS_PER_SEC as int)) as u32,
            },
        )
    } else {
        None
    }
}

impl Elapsed {
    /// The length of time in nanoseconds.
    pub open spec fn total(self) -> int {
        self.secs * NANOS_PER_SEC + self.nanos
    }

    /// The same length of time with less than a second's worth of
    /// nanoseconds, where the seconds can be held.
    pub open spec fn settled(self) -> Option<Elapsed> {
        split(self.total())
    }

    /// Carries whole seconds over from the nanoseconds.
    pub fn settle(self) -> (r: Result<Elapsed, OutOfRange>)
        ensures
            r == match self.settled() {
                Some(settled) => Ok::<Elapsed, OutOfRange>(settled),
                None => Err(OutOfRange),
            },
            r matches Ok(settled) ==> settled.nanos < NANOS_PER_SEC,
    {
        let carry: u64 = (self.nanos / NANOS_PER_SEC) as u64;
        let rest: u32 = self.nanos % NANOS_PER_SEC;
        if self.secs > u64::MAX - carry {
            return Err(OutOfRange);
        }
        Ok(Elapsed { secs: self.secs + carry, nanos: rest })
    }
}

/// The time from `start` to `end`, where `end` is not the earlier one and
/// the time can be held.
pub open spec fn between(start: Timestamp, end: Timestamp) -> Option<Elapsed> {
    split(end.unix_nanos - start.unix_nanos)
}

/// The time from `start` to `end`.
pub fn elapsed_between(start: Timestamp, end: Timestamp) -> (r: Result<Elapsed, OutOfRange>)
    ensures
        r == match between(start, end) {
            Some(elapsed) => Ok::<Elapsed, OutOfRange>(elapsed),
            None => Err(OutOfRange),
        },
        r matches Ok(elapsed) ==> elapsed.nanos < NANOS_PER_SEC,
{
    if end.unix_nanos < start.unix_nanos {
        return Err(OutOfRange);
    }
    let second: i128 = NANOS_PER_SEC as i128;
    let limit: i128 = (u64::MAX as i128) * second + (second - 1);
    if start.unix_nanos < 0 && end.unix_nanos > limit + start.unix_nanos {
        return Err(OutOfRange);
    }
    let gap: i128 = end.unix_nanos - start.unix_nanos;
    if gap > limit {
        return Err(OutOfRange);
    }
    Ok(Elapsed { secs: (gap / second) as u64, nanos: (gap % second) as u32 })
}

} // verus!
