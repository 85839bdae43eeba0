//! Kernel time values and clock domains.

use vstd::prelude::*;

verus! {

/// Nanoseconds in a second.
pub const NANOS_PER_SEC: u64 = 1_000_000_000;

/// Nanoseconds in a microsecond.
pub const NANOS_PER_USEC: u64 = 1_000;

/// Microseconds in a second.
pub const USEC_PER_SEC: u64 = 1_000_000;

/// Microseconds in one scheduler tick, as reported by the `times` syscall.
pub const USEC_PER_TICK: u64 = 10_000;

/// A point in time or a duration: seconds and nanoseconds.
#[derive(Clone, Copy, Debug, PartialEq, Eq, Structural)]
pub struct TimeSpec {
    /// Whole seconds.
    pub sec: u64,
    /// Nanoseconds past the second.
    pub nsec: u64,
}

/// A point in time: seconds and microseconds.
#[derive(Clone, Copy, Debug, PartialEq, Eq, Structural)]
pub struct TimeVal {
    /// Whole seconds.
    pub sec: u64,
    /// Microseconds past the second.
    pub usec: u64,
}

/// Resource usage: user and system CPU time.
#[derive(Clone, Copy, Debug, PartialEq, Eq, Structural)]
pub struct RUsage {
    /// User CPU time used.
    pub utime: TimeVal,
    /// System CPU time used.
    pub stime: TimeVal,
}

/// Process times in clock ticks, as written by the `times` syscall.
#[derive(Clone, Copy, Debug, PartialEq, Eq, Structural)]
pub struct Tms {
    /// User CPU time.
    pub tms_utime: u64,
    /// System CPU time.
    pub tms_stime: u64,
    /// User CPU time of waited-for children.
    pub tms_cutime: u64,
    /// System CPU time of waited-for children.
    pub tms_cstime: u64,
}

impl TimeSpec {
    /// The whole value in nanoseconds.
    pub open spec fn total_nanos(self) -> int {
        self.sec * NANOS_PER_SEC + self.nsec
    }

    /// The time `ns` nanoseconds after the epoch.
    pub open spec fn spec_from_nanos(ns: u64) -> TimeSpec {
        TimeSpec { sec: ns / NANOS_PER_SEC, nsec: ns % NANOS_PER_SEC }
    }

    /// Splits a nanosecond count into seconds and nanoseconds.
    pub fn from_nanos(ns: u64) -> (r: TimeSpec)
        ensures
            r == TimeSpec::spec_from_nanos(ns),
            r.nsec < NANOS_PER_SEC,
    {
        TimeSpec { sec: ns / NANOS_PER_SEC, nsec: ns % NANOS_PER_SEC }
    }

    /// The whole value in nanoseconds, as the duration a sleep request
    /// asks for.
    pub fn as_nanos(&self) -> (r: u128)
        ensures
            r == self.total_nanos(),
    {
        proof {
            assert(self.sec as int * (NANOS_PER_SEC as int) <= (u64::MAX as int) * (
            NANOS_PER_SEC as int)) by (nonlinear_arith)
                requires
                    self.sec as int <= u64::MAX as int,
            ;
        }
        self.sec as u128 * NANOS_PER_SEC as u128 + self.nsec as u128
    }
}

impl TimeVal {
    /// The time `ns` nanoseconds after the epoch, at microsecond precision.
    pub open spec fn spec_from_nanos(ns: u64) -> TimeVal {
        TimeVal { sec: ns / NANOS_PER_SEC, usec: (ns % NANOS_PER_SEC) / NANOS_PER_USEC }
    }

    /// Splits a nanosecond count into seconds and microseconds.
    pub fn from_nanos(ns: u64) -> (r: TimeVal)
        ensures
            r == TimeVal::spec_from_nanos(ns),
            r.usec < USEC_PER_SEC,
    {
        TimeVal { sec: ns / NANOS_PER_SEC, usec: (ns % NANOS_PER_SEC) / NANOS_PER_USEC }
    }
}

/// The clock domains of the clock syscalls.
#[derive(Clone, Copy, Debug, PartialEq, Eq, Structural)]
pub enum ClockId {
    /// Wall-clock time.
    ClockRealTime,
    /// Monotonic time since boot.
    ClockMonotonic,
    /// CPU time of the calling process.
    ClockProcessCpuTimeId,
    /// CPU time of the calling thread.
    ClockThreadCpuTimeId,
    /// Raw hardware monotonic time.
    ClockMonotonicRaw,
    /// Coarse wall-clock time.
    ClockRealTimeCoarse,
    /// Coarse monotonic time.
    ClockMonotonicCoarse,
    /// Monotonic time including suspend.
    ClockBootTime,
    /// Alarm-capable wall-clock time.
    ClockRealTimeAlarm,
    /// Alarm-capable boot time.
    ClockBootTimeAlarm,
}

/// The clock domain a raw syscall clock id denotes.
pub open spec fn spec_clock_id_from(raw: usize) -> ClockId {
    if raw == 0 {
        ClockId::ClockRealTime
    } else if raw == 1 {
        ClockId::ClockMonotonic
    } else if raw == 2 {
        ClockId::ClockProcessCpuTimeId
    } else if raw == 3 {
        ClockId::ClockThreadCpuTimeId
    } else if raw == 4 {
        ClockId::ClockMonotonicRaw
    } else if raw == 5 {
        ClockId::ClockRealTimeCoarse
    } else if raw == 6 {
        ClockId::ClockMonotonicCoarse
    } else if raw == 7 {
        ClockId::ClockBootTime
    } else if raw == 8 {
        ClockId::ClockRealTimeAlarm
    } else {
        ClockId::ClockBootTimeAlarm
    }
}

impl ClockId {
    /// Decodes the numeric clock id of the syscall interface. Ids past the
    /// known domains are a caller bug and are left out here.
    pub fn from_raw(raw: usize) -> (r: ClockId)
        requires
            raw < 10,
        ensures
            r == spec_clock_id_from(raw),
    {
        match raw {
            0 => ClockId::ClockRealTime,
            1 => ClockId::ClockMonotonic,
            2 => ClockId::ClockProcessCpuTimeId,
            3 => ClockId::ClockThreadCpuTimeId,
            4 => ClockId::ClockMonotonicRaw,
            5 => ClockId::ClockRealTimeCoarse,
            6 => ClockId::ClockMonotonicCoarse,
            7 => ClockId::ClockBootTime,
            8 => ClockId::ClockRealTimeAlarm,
            _ => ClockId::ClockBootTimeAlarm,
        }
    }

    /// Whether sleeps on this domain are implemented. Only the real-time
    /// and monotonic clocks are backed; the other domains are accepted as
    /// valid and return at once without sleeping, a documented gap kept for
    /// callers that probe clock availability.
    pub open spec fn spec_sleeps(self) -> bool {
        self == ClockId::ClockRealTime || self == ClockId::ClockMonotonic
    }

    /// Whether sleeps on this domain are implemented.
    pub fn sleeps(&self) -> (r: bool)
        ensures
            r == self.spec_sleeps(),
    {
        match self {
            ClockId::ClockRealTime => true,
            ClockId::ClockMonotonic => true,
            _ => false,
        }
    }
}

/// The flag word of `clock_nanosleep`: a relative duration, or an absolute
/// deadline.
#[derive(Clone, Copy, Debug, PartialEq, Eq, Structural)]
pub enum ClockFlags {
    /// The request is a relative duration.
    ZeroFlag,
    /// The request is an absolute point in time.
    TimerAbsTime,
}

/// The flag a raw syscall flag word denotes.
pub open spec fn spec_clock_flags_from(raw: usize) -> ClockFlags {
    if raw == 0 {
        ClockFlags::ZeroFlag
    } else {
        ClockFlags::TimerAbsTime
    }
}

impl ClockFlags {
    /// Decodes the numeric flag word of the syscall interface. Words past
    /// the known flags are a caller bug and are left out here.
    pub fn from_raw(raw: usize) -> (r: ClockFlags)
        requires
            raw < 2,
        ensures
            r == spec_clock_flags_from(raw),
    {
        if raw == 0 {
            ClockFlags::ZeroFlag
        } else {
            ClockFlags::TimerAbsTime
        }
    }
}

} // verus!
