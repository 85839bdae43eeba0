use irq_core::error::LxError;
use irq_core::event_listener::EventListener;
use irq_core::irq_manager::IrqManager;
use irq_core::syscall::ClockSleep;
use irq_core::syscall::SleepPoll;
use irq_core::syscall::Syscall;
use irq_core::time::RUsage;
use irq_core::time::TimeSpec;
use irq_core::time::TimeVal;
use irq_core::time::Tms;
use irq_core::user::UserInPtr;
use irq_core::user::UserOutPtr;

#[test]
fn clock_gettime_writes_current_time() {
    let sc = Syscall::new(3_000_000_500);
    let mut buf = UserOutPtr::<TimeSpec>::writable_slot();
    assert_eq!(sc.sys_clock_gettime(0, &mut buf), Ok(0));
    assert_eq!(*buf.written_value(), Some(TimeSpec { sec: 3, nsec: 500 }));
}

#[test]
fn clock_gettime_bad_pointer_faults() {
    let sc = Syscall::new(0);
    let mut buf = UserOutPtr::<TimeSpec>::dangling();
    assert_eq!(sc.sys_clock_gettime(0, &mut buf), Err(LxError::EFAULT));
    assert_eq!(*buf.written_value(), None);
}

#[test]
fn gettimeofday_nonnull_timezone_rejected_without_writing() {
    let mut sc = Syscall::new(5_000_000_000);
    let mut tv = UserOutPtr::<TimeVal>::writable_slot();
    let tz = UserInPtr::<u8>::with_value(0);
    assert_eq!(sc.sys_gettimeofday(&mut tv, &tz), Err(LxError::EINVAL));
    assert_eq!(*tv.written_value(), None);
}

#[test]
fn gettimeofday_null_timezone_writes_time() {
    let mut sc = Syscall::new(5_000_123_456);
    let mut tv = UserOutPtr::<TimeVal>::writable_slot();
    let tz = UserInPtr::<u8>::null_ptr();
    assert_eq!(sc.sys_gettimeofday(&mut tv, &tz), Ok(0));
    assert_eq!(*tv.written_value(), Some(TimeVal { sec: 5, usec: 123 }));
}

#[test]
fn time_returns_and_writes_seconds() {
    let mut sc = Syscall::new(12_999_999_999);
    let mut out = UserOutPtr::<u64>::writable_slot();
    assert_eq!(sc.sys_time(&mut out), Ok(12));
    assert_eq!(*out.written_value(), Some(12));
}

#[test]
fn time_bad_pointer_faults() {
    let mut sc = Syscall::new(12_999_999_999);
    let mut out = UserOutPtr::<u64>::dangling();
    assert_eq!(sc.sys_time(&mut out), Err(LxError::EFAULT));
    assert_eq!(*out.written_value(), None);
}

#[test]
fn getrusage_reports_current_time_stub() {
    let mut sc = Syscall::new(2_000_004_000);
    let mut ru = UserOutPtr::<RUsage>::writable_slot();
    assert_eq!(sc.sys_getrusage(0, &mut ru), Ok(0));
    let expected = TimeVal { sec: 2, usec: 4 };
    assert_eq!(*ru.written_value(), Some(RUsage { utime: expected, stime: expected }));
}

#[test]
fn times_writes_zero_times_and_returns_tick_count() {
    // 12.345678901 s = 12_345_678 usec in whole microseconds;
    // one tick is 10_000 usec, so the tick count is 1_234.
    let mut sc = Syscall::new(12_345_678_901);
    let mut buf = UserOutPtr::<Tms>::writable_slot();
    assert_eq!(sc.sys_times(&mut buf), Ok(1_234));
    assert_eq!(
        *buf.written_value(),
        Some(Tms { tms_utime: 0, tms_stime: 0, tms_cutime: 0, tms_cstime: 0 })
    );
}

#[test]
fn nanosleep_completes_only_after_deadline() {
    let mut sc = Syscall::new(0);
    let req = UserInPtr::with_value(TimeSpec { sec: 0, nsec: 10_000_000 });
    let sleep = sc.sys_nanosleep(&req).unwrap();
    assert_eq!(sc.sleep_poll(&sleep), SleepPoll::Pending);
    sc.advance_clock(9_999_999);
    assert_eq!(sc.sleep_poll(&sleep), SleepPoll::Pending);
    sc.advance_clock(1);
    assert_eq!(sc.sleep_poll(&sleep), SleepPoll::Ready(0));
}

#[test]
fn nanosleep_bad_pointer_faults() {
    let sc = Syscall::new(0);
    let req = UserInPtr::<TimeSpec>::dangling();
    assert_eq!(sc.sys_nanosleep(&req), Err(LxError::EFAULT));
    let null = UserInPtr::<TimeSpec>::null_ptr();
    assert_eq!(sc.sys_nanosleep(&null), Err(LxError::EFAULT));
}

#[test]
fn clock_nanosleep_unimplemented_domain_returns_at_once() {
    // CLOCK_PROCESS_CPUTIME_ID (id 2) performs no sleep: success with no
    // elapsed time.
    let sc = Syscall::new(77);
    let mut rem = UserOutPtr::<TimeSpec>::writable_slot();
    let req = UserInPtr::with_value(TimeSpec { sec: 1, nsec: 0 });
    let act = sc.sys_clock_nanosleep(2, 0, &req, &mut rem).unwrap();
    assert_eq!(act, ClockSleep::Immediate(0));
    assert_eq!(sc.now(), 77);
    assert_eq!(*rem.written_value(), None);
}

#[test]
fn clock_nanosleep_realtime_and_monotonic_suspend() {
    let mut sc = Syscall::new(0);
    let mut rem = UserOutPtr::<TimeSpec>::writable_slot();
    let req = UserInPtr::with_value(TimeSpec { sec: 0, nsec: 500 });
    for clockid in [0, 1] {
        // Relative and absolute flag words currently both arm the same
        // relative sleep.
        for flags in [0, 1] {
            let act = sc.sys_clock_nanosleep(clockid, flags, &req, &mut rem).unwrap();
            match act {
                ClockSleep::Suspend(s) => {
                    assert_eq!(s.deadline_ns, sc.now() as u128 + 500);
                    assert_eq!(sc.sleep_poll(&s), SleepPoll::Pending);
                }
                ClockSleep::Immediate(_) => panic!("implemented domain must suspend"),
            }
        }
    }
    sc.advance_clock(500);
    let act = sc.sys_clock_nanosleep(1, 0, &req, &mut rem).unwrap();
    match act {
        ClockSleep::Suspend(s) => {
            assert_eq!(s.deadline_ns, 1_000);
        }
        ClockSleep::Immediate(_) => panic!("implemented domain must suspend"),
    }
    assert_eq!(*rem.written_value(), None);
}

#[test]
fn clock_nanosleep_bad_pointer_faults() {
    let sc = Syscall::new(0);
    let mut rem = UserOutPtr::<TimeSpec>::writable_slot();
    let req = UserInPtr::<TimeSpec>::dangling();
    assert_eq!(sc.sys_clock_nanosleep(0, 0, &req, &mut rem), Err(LxError::EFAULT));
    assert_eq!(*rem.written_value(), None);
}

#[test]
fn timer_interrupt_wakes_sleeping_task_at_deadline() {
    // The whole dispatch chain: a task arms a 10 ms sleep and subscribes to
    // the timer listener; the timer interrupt advances the clock and fires
    // the vector; dispatch triggers the listener, and the woken task's
    // sleep has completed.
    const TIMER_VECTOR: usize = 32;
    let mut sc = Syscall::new(0);
    let mut irq = IrqManager::new(4);
    let mut listeners = vec![EventListener::new()];
    let _h = irq.register(TIMER_VECTOR, 0).unwrap();

    let req = UserInPtr::with_value(TimeSpec { sec: 0, nsec: 10_000_000 });
    let sleep = sc.sys_nanosleep(&req).unwrap();
    let waiter = listeners[0].subscribe();
    assert_eq!(sc.sleep_poll(&sleep), SleepPoll::Pending);

    // The hardware timer fires after 10 ms.
    sc.advance_clock(10_000_000);
    let mut woken: Vec<u64> = Vec::new();
    for cb in irq.dispatch(TIMER_VECTOR) {
        woken.extend(listeners[cb].trigger());
    }
    assert_eq!(woken, vec![waiter.id]);
    assert_eq!(sc.sleep_poll(&sleep), SleepPoll::Ready(0));
}
