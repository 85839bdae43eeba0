//! The sleep and clock-read syscalls.
//!
//! The syscall context owns the clock: a nanosecond count that the timer
//! interrupt path advances. A sleeping task follows the states running →
//! suspended on a deadline → woken. The suspension itself belongs to the
//! scheduler, so a sleep syscall here arms the request — it computes the
//! absolute deadline and hands back the state the task suspends on — and
//! [`Syscall::sleep_poll`] is the decision the scheduler consults when the
//! timer path (interrupt → dispatch → listener trigger) has woken the task:
//! the sleep completes exactly when the clock has reached the deadline.

use crate::error::LxError;
use crate::error::SysResult;
use crate::time::ClockFlags;
use crate::time::ClockId;
use crate::time::NANOS_PER_SEC;
use crate::time::NANOS_PER_USEC;
use crate::time::RUsage;
use crate::time::spec_clock_id_from;
use crate::time::TimeSpec;
use crate::time::TimeVal;
use crate::time::Tms;
use crate::time::USEC_PER_SEC;
use crate::time::USEC_PER_TICK;
use crate::user::UserInPtr;
use crate::user::UserOutPtr;
use vstd::arithmetic::div_mod::lemma_div_is_ordered;
use vstd::prelude::*;

verus! {

/// An armed sleep: the absolute deadline, in nanoseconds on the syscall
/// context's clock, at which the sleeping task becomes runnable again.
#[derive(Clone, Copy, Debug, PartialEq, Eq, Structural)]
pub struct SleepRequest {
    /// The deadline, in nanoseconds.
    pub deadline_ns: u128,
}

/// What polling an armed sleep finds.
#[derive(Clone, Copy, Debug, PartialEq, Eq, Structural)]
pub enum SleepPoll {
    /// The deadline has not passed; the task stays suspended.
    Pending,
    /// The deadline has passed; the syscall returns this value.
    Ready(u64),
}

/// How a `clock_nanosleep` call proceeds.
#[derive(Clone, Copy, Debug, PartialEq, Eq, Structural)]
pub enum ClockSleep {
    /// The domain performs no sleep; the syscall returns this value at once.
    Immediate(u64),
    /// The task suspends on this armed sleep.
    Suspend(SleepRequest),
}

/// The per-call syscall context: the clock the time syscalls read and the
/// sleep syscalls compute deadlines against.
pub struct Syscall {
    /// The current time, in nanoseconds since the epoch.
    now_ns: u64,
}

/// The number of ticks `times` reports at `ns` nanoseconds past the epoch.
pub open spec fn spec_tick(ns: u64) -> int {
    ((ns / NANOS_PER_SEC) * USEC_PER_SEC + (ns % NANOS_PER_SEC) / NANOS_PER_USEC) / USEC_PER_TICK as int
}

impl Syscall {
    /// The current time, in nanoseconds since the epoch.
    pub closed spec fn now_spec(self) -> u64 {
        self.now_ns
    }

    /// The duration `ts` asks for, turned into an absolute deadline.
    pub open spec fn spec_deadline(self, ts: TimeSpec) -> int {
        self.now_spec() + ts.total_nanos()
    }

    /// A syscall context whose clock reads `now_ns`.
    pub fn new(now_ns: u64) -> (r: Syscall)
        ensures
            r.now_spec() == now_ns,
    {
        Syscall { now_ns }
    }

    /// The current time, in nanoseconds.
    pub fn now(&self) -> (r: u64)
        ensures
            r == self.now_spec(),
    {
        self.now_ns
    }

    /// Moves the clock forward, as the timer interrupt path does.
    pub fn advance_clock(&mut self, delta_ns: u64)
        requires
            old(self).now_spec() + delta_ns <= u64::MAX,
        ensures
            final(self).now_spec() == old(self).now_spec() + delta_ns,
    {
        self.now_ns = self.now_ns + delta_ns;
    }

    /// Writes the current time of `clock` as seconds and nanoseconds into
    /// `buf`. Only the real-time clock is backed by a source; every domain
    /// currently reads it.
    pub fn sys_clock_gettime(&self, clock: usize, buf: &mut UserOutPtr<TimeSpec>) -> (r: SysResult)
        ensures
            old(buf).writable_spec() ==> r == Ok::<u64, LxError>(0) && final(buf).written()
                == Some(TimeSpec::spec_from_nanos(self.now_spec())),
            !old(buf).writable_spec() ==> r == Err::<u64, LxError>(LxError::EFAULT) && *final(buf)
                == *old(buf),
    {
        let _ = clock;
        let ts = TimeSpec::from_nanos(self.now_ns);
        match buf.write(ts) {
            Ok(()) => Ok(0),
            Err(e) => Err(e),
        }
    }

    /// Writes the current time as seconds and microseconds into `tv`. The
    /// timezone argument is unsupported by design: a non-null `tz` fails
    /// with `EINVAL`, and then nothing is written to `tv`.
    pub fn sys_gettimeofday(&mut self, tv: &mut UserOutPtr<TimeVal>, tz: &UserInPtr<u8>) -> (r:
        SysResult)
        ensures
            *final(self) == *old(self),
            !tz.is_null_spec() ==> r == Err::<u64, LxError>(LxError::EINVAL) && *final(tv) == *old(tv),
            tz.is_null_spec() && old(tv).writable_spec() ==> r == Ok::<u64, LxError>(0) && final(tv).written() == Some(TimeVal::spec_from_nanos(old(self).now_spec())),
            tz.is_null_spec() && !old(tv).writable_spec() ==> r == Err::<u64, LxError>(
                LxError::EFAULT,
            ) && *final(tv) == *old(tv),
    {
        if !tz.is_null() {
            return Err(LxError::EINVAL);
        }
        let timeval = TimeVal::from_nanos(self.now_ns);
        match tv.write(timeval) {
            Ok(()) => Ok(0),
            Err(e) => Err(e),
        }
    }

    /// Writes the current time in whole seconds since the epoch to `time`
    /// and also returns it as the syscall's own value.
    pub fn sys_time(&mut self, time: &mut UserOutPtr<u64>) -> (r: SysResult)
        ensures
            *final(self) == *old(self),
            old(time).writable_spec() ==> r == Ok::<u64, LxError>(
                old(self).now_spec() / NANOS_PER_SEC,
            ) && final(time).written() == Some(old(self).now_spec() / NANOS_PER_SEC),
            !old(time).writable_spec() ==> r == Err::<u64, LxError>(LxError::EFAULT) && *final(time)
                == *old(time),
    {
        let sec = self.now_ns / NANOS_PER_SEC;
        match time.write(sec) {
            Ok(()) => Ok(sec),
            Err(e) => Err(e),
        }
    }

    /// Writes stub resource usage for `who`: user and system time both read
    /// the current clock, since they are not separately tracked.
    pub fn sys_getrusage(&mut self, who: usize, rusage: &mut UserOutPtr<RUsage>) -> (r: SysResult)
        ensures
            *final(self) == *old(self),
            old(rusage).writable_spec() ==> r == Ok::<u64, LxError>(0) && final(rusage).written()
                == Some(
                (RUsage {
                    utime: TimeVal::spec_from_nanos(old(self).now_spec()),
                    stime: TimeVal::spec_from_nanos(old(self).now_spec()),
                }),
            ),
            !old(rusage).writable_spec() ==> r == Err::<u64, LxError>(LxError::EFAULT) && *final(rusage) == *old(rusage),
    {
        let now = TimeVal::from_nanos(self.now_ns);
        let new_rusage = RUsage { utime: now, stime: now };
        let _ = who;
        match rusage.write(new_rusage) {
            Ok(()) => Ok(0),
            Err(e) => Err(e),
        }
    }

    /// Writes process times (all currently zero, since CPU time is not
    /// separately tracked) into `buf` and returns the current tick count.
    pub fn sys_times(&mut self, buf: &mut UserOutPtr<Tms>) -> (r: SysResult)
        ensures
            *final(self) == *old(self),
            old(buf).writable_spec() ==> r == Ok::<u64, LxError>(spec_tick(old(self).now_spec()) as u64)
                && final(buf).written() == Some(
                (Tms { tms_utime: 0, tms_stime: 0, tms_cutime: 0, tms_cstime: 0 }),
            ),
            !old(buf).writable_spec() ==> r == Err::<u64, LxError>(LxError::EFAULT) && *final(buf)
                == *old(buf),
    {
        let tv = TimeVal::from_nanos(self.now_ns);
        proof {
            lemma_div_is_ordered(self.now_ns as int, u64::MAX as int, NANOS_PER_SEC as int);
        }
        let tick = (tv.sec * USEC_PER_SEC + tv.usec) / USEC_PER_TICK;
        let new_buf = Tms { tms_utime: 0, tms_stime: 0, tms_cutime: 0, tms_cstime: 0 };
        match buf.write(new_buf) {
            Ok(()) => Ok(tick),
            Err(e) => Err(e),
        }
    }

    /// Arms a sleep for the relative duration read from `req`: the deadline
    /// is the current clock plus the requested nanoseconds. The calling
    /// task then suspends on the returned request until the timer path has
    /// advanced the clock past the deadline (see [`Syscall::sleep_poll`]);
    /// resuming it returns 0.
    pub fn sys_nanosleep(&self, req: &UserInPtr<TimeSpec>) -> (r: Result<SleepRequest, LxError>)
        ensures
            (r is Ok) <==> req.readable(),
            match r {
                Ok(s) => match req.value_spec() {
                    Some(ts) => s.deadline_ns == self.spec_deadline(ts),
                    None => false,
                },
                Err(e) => e == LxError::EFAULT,
            },
    {
        let duration = match req.read() {
            Ok(ts) => ts,
            Err(e) => {
                return Err(e);
            },
        };
        let deadline = self.now_ns as u128 + duration.as_nanos();
        Ok(SleepRequest { deadline_ns: deadline })
    }

    /// The decision the scheduler consults when a sleeping task is woken:
    /// the sleep completes with value 0 exactly when the clock has reached
    /// the deadline, and not before.
    pub fn sleep_poll(&self, s: &SleepRequest) -> (r: SleepPoll)
        ensures
            r == (if self.now_spec() >= s.deadline_ns {
                SleepPoll::Ready(0u64)
            } else {
                SleepPoll::Pending
            }),
    {
        if self.now_ns as u128 >= s.deadline_ns {
            SleepPoll::Ready(0)
        } else {
            SleepPoll::Pending
        }
    }

    /// Arms a sleep on a clock domain. The real-time and monotonic domains
    /// suspend like `sys_nanosleep`; for them the relative and absolute
    /// flag words currently resolve to the same relative sleep. Every other
    /// domain is accepted but performs no sleep and succeeds at once with
    /// value 0. The remaining-time output is never written.
    pub fn sys_clock_nanosleep(
        &self,
        clockid: usize,
        flags: usize,
        req: &UserInPtr<TimeSpec>,
        rem: &mut UserOutPtr<TimeSpec>,
    ) -> (r: Result<ClockSleep, LxError>)
        requires
            clockid < 10,
            flags < 2,
        ensures
            *final(rem) == *old(rem),
            (r is Ok) <==> req.readable(),
            match r {
                Ok(act) => match act {
                    ClockSleep::Suspend(s) => spec_clock_id_from(clockid).spec_sleeps() && (
                    match req.value_spec() {
                        Some(ts) => s.deadline_ns == self.spec_deadline(ts),
                        None => false,
                    }),
                    ClockSleep::Immediate(v) => !spec_clock_id_from(clockid).spec_sleeps() && v
                        == 0,
                },
                Err(e) => e == LxError::EFAULT,
            },
    {
        let duration = match req.read() {
            Ok(ts) => ts,
            Err(e) => {
                return Err(e);
            },
        };
        let clock = ClockId::from_raw(clockid);
        // Both flag words resolve to the same relative sleep for now; the
        // flag is decoded so a caller bug in it is still rejected.
        let _flags = ClockFlags::from_raw(flags);
        if clock.sleeps() {
            let deadline = self.now_ns as u128 + duration.as_nanos();
            Ok(ClockSleep::Suspend(SleepRequest { deadline_ns: deadline }))
        } else {
            Ok(ClockSleep::Immediate(0))
        }
    }
}

} // verus!
