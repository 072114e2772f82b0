//! Monotonic tick clock and alarm scheduler built on the free-running
//! system-tick counter, one hardware compare register, and a queue of
//! pending timed wakeups.
//!
//! The counter and compare registers are modelled as plain data in
//! [`SystickRegs`]; the wakeup queue is the timer queue of the
//! `embassy-time-queue-utils` crate, held behind trusted wrappers whose
//! contracts speak of the multiset of pending deadlines. Arming the compare
//! register races against the advancing counter, so `set_alarm` re-checks
//! staleness after writing and the interrupt path retries until a deadline
//! strictly in the future is armed.

use vstd::prelude::*;
use vstd::multiset::Multiset;
use core::task::Waker;
use embassy_time_queue_utils::Queue;
use crate::critical::{IrqState, SingleHartCriticalSection};
use crate::pfic::{Pfic, PficExt, Priority, pfic_wf, spec_enable, spec_set_priority};
use crate::sys::{Sys, SysExt, spec_fsys};

verus! {

broadcast use vstd::multiset::group_multiset_axioms;

/// Ticks per second of the logical clock exposed upward.
pub const TICK_HZ: u64 = 1_000_000;

/// Interrupt id of the system-tick compare interrupt.
pub const SYSTICK_IRQ: u8 = 12;

#[verifier::external_type_specification]
#[verifier::external_body]
/// The task waker type; opaque to the model, carried through to the queue.
pub struct ExWaker(Waker);

#[verifier::external_type_specification]
#[verifier::external_body]
/// The outside timer queue holding (deadline, waker) entries.
pub struct ExTimerQueue(Queue);

/// The multiset of deadlines (in counter units) pending in a timer queue.
pub uninterp spec fn queue_deadlines(q: Queue) -> Multiset<u64>;

/// Relies on `embassy_time_queue_utils::Queue::new`: the queue starts with
/// no entries.
#[verifier::external_body]
fn queue_new() -> (q: Queue)
    ensures
        queue_deadlines(q) == Multiset::<u64>::empty(),
{
    Queue::new()
}

/// Relies on `embassy_time_queue_utils::Queue::schedule_wake` (generic
/// queue): if an entry for the same waker exists, its deadline moves to
/// `at` when that is earlier and nothing changes otherwise; a new waker is
/// inserted, evicting (and spuriously waking) one entry when the fixed
/// capacity is full. The result says whether the nearest deadline may have
/// changed, so the caller should re-arm.
#[verifier::external_body]
fn queue_schedule_wake(q: &mut Queue, at: u64, waker: &Waker) -> (changed: bool)
    ensures
        changed ==> queue_deadlines(*final(q)).contains(at),
        changed ==> (queue_deadlines(*final(q)) == queue_deadlines(*old(q)).insert(at)
            || (exists|d0: u64|
                queue_deadlines(*old(q)).contains(d0)
                    && queue_deadlines(*final(q)) == queue_deadlines(*old(q)).remove(d0).insert(
                    at,
                ))),
        !changed ==> queue_deadlines(*final(q)) == queue_deadlines(*old(q)),
        !changed ==> (exists|d0: u64|
            queue_deadlines(*old(q)).contains(d0) && d0 <= at),
{
    q.schedule_wake(at, waker)
}

/// Relies on `embassy_time_queue_utils::Queue::next_expiration`: wakes and
/// removes every entry whose deadline is at or before `now`, and returns
/// the smallest remaining deadline, or `u64::MAX` when none remain.
#[verifier::external_body]
fn queue_next_expiration(q: &mut Queue, now: u64) -> (next: u64)
    ensures
        queue_deadlines(*final(q)) == spec_pending_after(queue_deadlines(*old(q)), now),
        queue_deadlines(*final(q)).len() == 0 ==> next == u64::MAX,
        queue_deadlines(*final(q)).len() > 0 ==> queue_deadlines(*final(q)).contains(next),
        forall|d: u64| queue_deadlines(*final(q)).contains(d) ==> next <= d,
        now < u64::MAX ==> next > now,
{
    q.next_expiration(now)
}

/// Relies on `embassy_time_driver::TICK_HZ`: one million ticks per second
/// under this crate's tick-rate selection.
#[verifier::external_body]
fn tick_hz() -> (r: u64)
    ensures
        r == TICK_HZ,
{
    embassy_time_driver::TICK_HZ
}

/// Model of the system-tick register block: the free-running counter, the
/// compare register, the control bits and the pending-compare flag.
#[derive(Clone, Copy, Debug, PartialEq, Eq, Structural)]
pub struct SystickRegs {
    /// Free-running counter value.
    pub cnt: u64,
    /// Compare value: the counter value at which the interrupt fires.
    pub cmp: u64,
    /// Counter initialization bit.
    pub ctl_init: bool,
    /// Counter enable bit.
    pub ctl_ste: bool,
    /// Compare-interrupt enable bit.
    pub ctl_stie: bool,
    /// Counting direction bit; cleared for up-counting.
    pub ctl_mode: bool,
    /// Auto-reload bit; cleared for free-running.
    pub ctl_stre: bool,
    /// Clock-select bit; cleared for the 8x-prescaled system clock.
    pub ctl_stclk: bool,
    /// Pending-compare flag.
    pub cntif: bool,
}

/// Errors of the time driver: only double initialization is surfaced.
#[derive(Clone, Copy, Debug, PartialEq, Eq, Structural)]
pub enum TimeDriverError {
    /// `init` ran a second time.
    AlreadyInitialized,
}

/// Abstract state of the time driver. Before initialization `regs` is the
/// all-zero block and `initialized` is false.
pub struct DriverView {
    /// Whether `init` has run.
    pub initialized: bool,
    /// The register block, all-zero before initialization.
    pub regs: SystickRegs,
    /// Cached counter increments per logical tick.
    pub cnt_per_tick: u32,
    /// Deadlines (in counter units) pending in the wakeup queue.
    pub deadlines: Multiset<u64>,
}

/// The all-zero register block standing for "no hardware handed over yet".
pub open spec fn spec_zero_regs() -> SystickRegs {
    SystickRegs {
        cnt: 0,
        cmp: 0,
        ctl_init: false,
        ctl_ste: false,
        ctl_stie: false,
        ctl_mode: false,
        ctl_stre: false,
        ctl_stclk: false,
        cntif: false,
    }
}

/// Register state right after `init`: counter initialized and enabled,
/// up-counting, free-running, 8x prescale, compare reset and nothing
/// pending; the counter value itself keeps running.
pub open spec fn spec_init_regs(r: SystickRegs) -> SystickRegs {
    SystickRegs {
        cmp: 0,
        ctl_init: true,
        ctl_ste: true,
        ctl_stie: false,
        ctl_mode: false,
        ctl_stre: false,
        ctl_stclk: false,
        cntif: false,
        ..r
    }
}

/// The logical clock: counter value divided by the counter-per-tick ratio.
pub open spec fn spec_now(v: DriverView) -> u64 {
    v.regs.cnt / (v.cnt_per_tick as u64)
}

/// The deadlines still pending once every entry due at or before `now`
/// has fired.
pub open spec fn spec_pending_after(ds: Multiset<u64>, now: u64) -> Multiset<u64> {
    ds.filter(|d: u64| d > now)
}

/// The compare register is armed consistently with the queue: interrupt
/// enabled, nothing left pending at or before the counter, and the armed
/// value is the nearest pending deadline (or the idle value `u64::MAX`
/// when the queue is empty), strictly in the future.
pub open spec fn spec_armed(v: DriverView) -> bool {
    &&& v.regs.ctl_stie
    &&& !v.regs.cntif
    &&& v.regs.cmp > v.regs.cnt
    &&& (v.deadlines.len() == 0 ==> v.regs.cmp == u64::MAX)
    &&& (v.deadlines.len() > 0 ==> v.deadlines.contains(v.regs.cmp)
        && (forall|d: u64| v.deadlines.contains(d) ==> v.regs.cmp <= d))
}

/// Frame between two driver states: everything except the compare
/// register, the interrupt-enable bit, the pending flag and the queue.
pub open spec fn spec_same_clock(a: DriverView, b: DriverView) -> bool {
    &&& a.initialized == b.initialized
    &&& a.cnt_per_tick == b.cnt_per_tick
    &&& a.regs.cnt == b.regs.cnt
    &&& a.regs.ctl_init == b.regs.ctl_init
    &&& a.regs.ctl_ste == b.regs.ctl_ste
    &&& a.regs.ctl_mode == b.regs.ctl_mode
    &&& a.regs.ctl_stre == b.regs.ctl_stre
    &&& a.regs.ctl_stclk == b.regs.ctl_stclk
}

/// The time driver: the register block (handed over once at
/// initialization), the cached tick ratio, and the wakeup queue.
pub struct SystickDriver {
    systick: Option<SystickRegs>,
    cnt_per_tick: u32,
    queue: Queue,
}

impl View for SystickDriver {
    type V = DriverView;

    closed spec fn view(&self) -> DriverView {
        DriverView {
            initialized: self.systick is Some,
            regs: match self.systick {
                Some(r) => r,
                None => spec_zero_regs(),
            },
            cnt_per_tick: self.cnt_per_tick,
            deadlines: queue_deadlines(self.queue),
        }
    }
}

impl SystickDriver {
    /// A driver that has not been handed its hardware yet.
    pub fn new() -> (r: SystickDriver)
        ensures
            !r@.initialized,
            r@.regs == spec_zero_regs(),
            r@.cnt_per_tick == 0,
            r@.deadlines == Multiset::<u64>::empty(),
    {
        SystickDriver { systick: None, cnt_per_tick: 0, queue: queue_new() }
    }

    /// Take ownership of the register block, cache the counter-per-tick
    /// ratio from the live system frequency, and arm the counter:
    /// initialized, enabled, up-counting, free-running, 8x prescale, with
    /// the compare value reset and no pending flag. Fails if the driver
    /// already holds hardware.
    pub fn init(&mut self, systick: SystickRegs, sys: &Sys) -> (r: Result<(), TimeDriverError>)
        ensures
            old(self)@.initialized ==> r == Result::<(), TimeDriverError>::Err(
                TimeDriverError::AlreadyInitialized,
            ) && final(self)@ == old(self)@,
            !old(self)@.initialized ==> r is Ok && final(self)@ == (DriverView {
                initialized: true,
                regs: spec_init_regs(systick),
                cnt_per_tick: (spec_fsys(sys@) as u64 / TICK_HZ) as u32,
                deadlines: old(self)@.deadlines,
            }),
    {
        if self.systick.is_some() {
            return Err(TimeDriverError::AlreadyInitialized);
        }

        let cnt_per_second = sys.fsys() as u64;
        let cnt_per_tick = cnt_per_second / tick_hz();
        self.cnt_per_tick = cnt_per_tick as u32;

        let mut regs = systick;
        // Init and enable the counter.
        regs.ctl_init = true;
        regs.ctl_ste = true;
        // Reset the compare value and clear the pending flag.
        regs.cmp = 0;
        regs.cntif = false;
        // Count up without reloading, from the 8x-prescaled system clock.
        regs.ctl_mode = false;
        regs.ctl_stre = false;
        regs.ctl_stclk = false;
        regs.ctl_stie = false;
        self.systick = Some(regs);
        Ok(())
    }

    /// Read the live counter.
    pub fn cnt(&self) -> (r: u64)
        requires
            self@.initialized,
        ensures
            r == self@.regs.cnt,
    {
        self.systick.as_ref().unwrap().cnt
    }

    /// Advance the free-running counter, as the prescaled system clock
    /// does between operations. Wraparound is out of scope: the counter
    /// must not overflow.
    pub fn advance_counter(&mut self, delta: u64)
        requires
            old(self)@.initialized,
            old(self)@.regs.cnt + delta <= u64::MAX,
        ensures
            final(self)@ == (DriverView {
                regs: SystickRegs { cnt: (old(self)@.regs.cnt + delta) as u64, ..old(self)@.regs },
                ..old(self)@
            }),
    {
        let mut regs = self.systick.unwrap();
        regs.cnt = regs.cnt + delta;
        self.systick = Some(regs);
    }

    /// Whether `init` has run.
    pub fn is_initialized(&self) -> (r: bool)
        ensures
            r == self@.initialized,
    {
        self.systick.is_some()
    }

    /// The cached counter increments per logical tick.
    pub fn cnt_per_tick(&self) -> (r: u32)
        ensures
            r == self@.cnt_per_tick,
    {
        self.cnt_per_tick
    }

    /// Whether the compare interrupt is currently enabled.
    pub fn alarm_armed(&self) -> (r: bool)
        requires
            self@.initialized,
        ensures
            r == self@.regs.ctl_stie,
    {
        self.systick.as_ref().unwrap().ctl_stie
    }

    /// The value currently loaded into the compare register.
    pub fn compare_value(&self) -> (r: u64)
        requires
            self@.initialized,
        ensures
            r == self@.regs.cmp,
    {
        self.systick.as_ref().unwrap().cmp
    }

    /// The current logical tick count: live counter divided by the cached
    /// ratio. Monotonic as long as the counter does not wrap.
    pub fn now(&self) -> (r: u64)
        requires
            self@.initialized,
            self@.cnt_per_tick > 0,
        ensures
            r == spec_now(self@),
    {
        let cnt_per_tick = self.cnt_per_tick as u64;
        self.cnt() / cnt_per_tick
    }

    /// Try to arm the compare register for `next_alarm_cnt`. Returns false
    /// without side effects if the deadline is already at or before the
    /// counter; otherwise writes the compare value, enables the interrupt,
    /// clears the pending flag, and re-checks staleness once more (arming
    /// is not atomic with respect to the advancing counter) — disarming
    /// again and returning false if the deadline meanwhile passed.
    pub fn set_alarm(&mut self, next_alarm_cnt: u64) -> (armed: bool)
        requires
            old(self)@.initialized,
        ensures
            armed == (next_alarm_cnt > old(self)@.regs.cnt),
            !armed ==> final(self)@ == old(self)@,
            armed ==> final(self)@ == (DriverView {
                regs: SystickRegs {
                    cmp: next_alarm_cnt,
                    ctl_stie: true,
                    cntif: false,
                    ..old(self)@.regs
                },
                ..old(self)@
            }),
    {
        // Already passed.
        if next_alarm_cnt <= self.cnt() {
            return false;
        }

        // Set the compare value, enable the interrupt, clear the flag.
        let mut regs = self.systick.unwrap();
        regs.cmp = next_alarm_cnt;
        regs.ctl_stie = true;
        regs.cntif = false;
        self.systick = Some(regs);

        // Already passed while arming: disable the interrupt again.
        if next_alarm_cnt <= self.cnt() {
            let mut regs = self.systick.unwrap();
            regs.ctl_stie = false;
            regs.cntif = false;
            self.systick = Some(regs);
            return false;
        }

        true
    }

    /// The compare-interrupt path: clear the pending flag, drain every due
    /// entry from the queue, and re-arm the compare register for the
    /// nearest remaining deadline, retrying until a value strictly in the
    /// future is armed. Counter wraparound is out of scope, so the counter
    /// must not be saturated.
    pub fn trigger_alarm(&mut self)
        requires
            old(self)@.initialized,
            old(self)@.regs.cnt < u64::MAX,
        ensures
            spec_same_clock(final(self)@, old(self)@),
            final(self)@.deadlines == spec_pending_after(
                old(self)@.deadlines,
                old(self)@.regs.cnt,
            ),
            spec_armed(final(self)@),
    {
        // Clear the pending-compare flag.
        let mut regs = self.systick.unwrap();
        regs.cntif = false;
        self.systick = Some(regs);

        let now = self.cnt();
        let mut next = queue_next_expiration(&mut self.queue, now);
        loop
            invariant
                self@.initialized,
                spec_same_clock(self@, old(self)@),
                self@.regs.cnt == now,
                now < u64::MAX,
                self@.deadlines == spec_pending_after(
                    old(self)@.deadlines,
                    old(self)@.regs.cnt,
                ),
                next > now,
                self@.deadlines.len() == 0 ==> next == u64::MAX,
                self@.deadlines.len() > 0 ==> self@.deadlines.contains(next),
                forall|d: u64| self@.deadlines.contains(d) ==> next <= d,
            ensures
                spec_same_clock(self@, old(self)@),
                self@.deadlines == spec_pending_after(
                    old(self)@.deadlines,
                    old(self)@.regs.cnt,
                ),
                spec_armed(self@),
            decreases 0int,
        {
            if self.set_alarm(next) {
                break;
            }
            // The deadline went stale between reading it and arming: ask
            // the queue again, which also fires the just-missed entry.
            let c = self.cnt();
            next = queue_next_expiration(&mut self.queue, c);
        }
    }

    /// Register a wakeup at logical tick `at`: convert to counter units,
    /// insert into the queue inside a critical section, and re-arm the
    /// compare register if the nearest pending deadline may have changed.
    /// Returns without blocking; the interrupt state ends as it began.
    pub fn schedule_wake(&mut self, at: u64, waker: &Waker, irq: &mut IrqState)
        requires
            old(self)@.initialized,
            old(self)@.regs.cnt < u64::MAX,
            at * old(self)@.cnt_per_tick <= u64::MAX,
        ensures
            final(irq).enabled == old(irq).enabled,
            spec_same_clock(final(self)@, old(self)@),
            ({
                let dl = (at * old(self)@.cnt_per_tick) as u64;
                let ds0 = old(self)@.deadlines;
                let ds1 = final(self)@.deadlines;
                // Nothing changed: an entry at or before the new deadline
                // already covered it.
                ((ds1 == ds0 && final(self)@.regs == old(self)@.regs && (exists|d0: u64|
                    ds0.contains(d0) && d0 <= dl))
                // Or the queue took the deadline (possibly replacing an
                // entry), every entry now due was fired, and the compare
                // register is armed for the nearest remaining deadline.
                || ((ds1 == spec_pending_after(ds0.insert(dl), old(self)@.regs.cnt)
                    || (exists|d0: u64|
                        #[trigger] ds0.contains(d0) && ds1 == spec_pending_after(
                            ds0.remove(d0).insert(dl),
                            old(self)@.regs.cnt,
                        ))) && spec_armed(final(self)@)))
            }),
    {
        let token = SingleHartCriticalSection::acquire(irq);

        let cnt_per_tick = self.cnt_per_tick as u64;
        let deadline = at * cnt_per_tick;
        let changed = queue_schedule_wake(&mut self.queue, deadline, waker);
        if changed {
            let now = self.cnt();
            let mut next = queue_next_expiration(&mut self.queue, now);
            loop
                invariant
                    self@.initialized,
                    spec_same_clock(self@, old(self)@),
                    self@.regs.cnt == now,
                    now < u64::MAX,
                    self@.deadlines == spec_pending_after(
                        old(self)@.deadlines.insert((at * old(self)@.cnt_per_tick) as u64),
                        old(self)@.regs.cnt,
                    ) || (exists|d0: u64|
                        #[trigger] old(self)@.deadlines.contains(d0) && self@.deadlines
                            == spec_pending_after(
                            old(self)@.deadlines.remove(d0).insert(
                                (at * old(self)@.cnt_per_tick) as u64,
                            ),
                            old(self)@.regs.cnt,
                        )),
                    next > now,
                    self@.deadlines.len() == 0 ==> next == u64::MAX,
                    self@.deadlines.len() > 0 ==> self@.deadlines.contains(next),
                    forall|d: u64| self@.deadlines.contains(d) ==> next <= d,
                ensures
                    spec_same_clock(self@, old(self)@),
                    self@.deadlines == spec_pending_after(
                        old(self)@.deadlines.insert((at * old(self)@.cnt_per_tick) as u64),
                        old(self)@.regs.cnt,
                    ) || (exists|d0: u64|
                        #[trigger] old(self)@.deadlines.contains(d0) && self@.deadlines
                            == spec_pending_after(
                            old(self)@.deadlines.remove(d0).insert(
                                (at * old(self)@.cnt_per_tick) as u64,
                            ),
                            old(self)@.regs.cnt,
                        )),
                    spec_armed(self@),
                decreases 0int,
            {
                if self.set_alarm(next) {
                    break;
                }
                let c = self.cnt();
                next = queue_next_expiration(&mut self.queue, c);
            }
        }

        SingleHartCriticalSection::release(irq, token);
    }
}

/// Set up the time driver and its interrupt: hand the register block over,
/// then give the system-tick interrupt the highest priority and enable it.
pub fn init(
    driver: &mut SystickDriver,
    systick: SystickRegs,
    sys: &Sys,
    pfic: &mut Pfic,
) -> (r: Result<(), TimeDriverError>)
    requires
        pfic_wf(old(pfic)@),
    ensures
        pfic_wf(final(pfic)@),
        old(driver)@.initialized ==> r is Err && final(driver)@ == old(driver)@ && final(pfic)@
            == old(pfic)@,
        !old(driver)@.initialized ==> r is Ok && final(driver)@ == (DriverView {
            initialized: true,
            regs: spec_init_regs(systick),
            cnt_per_tick: (spec_fsys(sys@) as u64 / TICK_HZ) as u32,
            deadlines: old(driver)@.deadlines,
        }) && final(pfic)@ == spec_enable(
            spec_set_priority(old(pfic)@, SYSTICK_IRQ as int, Priority::P15),
            SYSTICK_IRQ as int,
        ),
{
    match driver.init(systick, sys) {
        Err(e) => Err(e),
        Ok(()) => {
            pfic.set_priority(SYSTICK_IRQ, Priority::P15);
            pfic.enable(SYSTICK_IRQ);
            Ok(())
        },
    }
}

/// Draining the queue at counter value `now` is exact: a deadline at or
/// before `now` does not survive it, and one strictly later keeps its
/// multiplicity — entries are neither fired early nor fired twice.
pub proof fn lemma_pending_after_exact(ds: Multiset<u64>, now: u64, d: u64)
    ensures
        d <= now ==> !spec_pending_after(ds, now).contains(d),
        d > now ==> spec_pending_after(ds, now).count(d) == ds.count(d),
{
}

/// The logical clock is monotonic: with the same tick ratio, a counter
/// that has not moved backwards (and has not wrapped) never yields a
/// smaller tick count.
pub proof fn lemma_now_monotonic(v1: DriverView, v2: DriverView)
    requires
        v1.cnt_per_tick == v2.cnt_per_tick,
        v1.cnt_per_tick > 0,
        v1.regs.cnt <= v2.regs.cnt,
    ensures
        spec_now(v1) <= spec_now(v2),
{
    vstd::arithmetic::div_mod::lemma_div_is_ordered(
        v1.regs.cnt as int,
        v2.regs.cnt as int,
        v1.cnt_per_tick as int,
    );
}

} // verus!
