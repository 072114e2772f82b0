use std::sync::Arc;
use std::sync::atomic::{AtomicUsize, Ordering};
use std::task::{Wake, Waker};

use mcu_core::critical::IrqState;
use mcu_core::pfic::{Pfic, PficExt, Priority};
use mcu_core::sys::{Config, Sys, SysExt};
use mcu_core::systick::{self, SystickDriver, SystickRegs, TimeDriverError, SYSTICK_IRQ};

struct CountWaker(AtomicUsize);

impl CountWaker {
    fn pair() -> (Arc<CountWaker>, Waker) {
        let counter = Arc::new(CountWaker(AtomicUsize::new(0)));
        let waker = Waker::from(counter.clone());
        (counter, waker)
    }

    fn hits(&self) -> usize {
        self.0.load(Ordering::SeqCst)
    }
}

impl Wake for CountWaker {
    fn wake(self: Arc<Self>) {
        self.0.fetch_add(1, Ordering::SeqCst);
    }
}

fn zero_regs() -> SystickRegs {
    SystickRegs {
        cnt: 0,
        cmp: 0,
        ctl_init: false,
        ctl_ste: false,
        ctl_stie: false,
        ctl_mode: false,
        ctl_stre: false,
        ctl_stclk: false,
        cntif: false,
    }
}

/// A driver clocked from HSE/5 (6.4 MHz), so 6 counter units per tick.
fn driver_at_6_4_mhz() -> SystickDriver {
    let mut irq = IrqState { enabled: true };
    let sys = Sys::new().set(Config::hse(5), &mut irq);
    let mut driver = SystickDriver::new();
    driver.init(zero_regs(), &sys).expect("first init");
    driver
}

#[test]
fn init_caches_counter_per_tick_ratio() {
    let driver = driver_at_6_4_mhz();
    assert!(driver.is_initialized());
    // 6_400_000 Hz / 1_000_000 ticks per second.
    assert_eq!(driver.cnt_per_tick(), 6);
    assert!(!driver.alarm_armed());
    assert_eq!(driver.compare_value(), 0);
}

#[test]
fn second_init_fails_with_already_initialized() {
    let mut irq = IrqState { enabled: true };
    let sys = Sys::new().set(Config::hse(5), &mut irq);
    let mut driver = SystickDriver::new();
    assert_eq!(driver.init(zero_regs(), &sys), Ok(()));
    assert_eq!(
        driver.init(zero_regs(), &sys),
        Err(TimeDriverError::AlreadyInitialized)
    );
    // The first initialization stays in effect.
    assert_eq!(driver.cnt_per_tick(), 6);
}

#[test]
fn init_registers_the_interrupt() {
    let mut irq = IrqState { enabled: true };
    let sys = Sys::new().set(Config::hse(5), &mut irq);
    let mut driver = SystickDriver::new();
    let mut pfic = Pfic::new();
    systick::init(&mut driver, zero_regs(), &sys, &mut pfic).expect("init");
    assert!(pfic.is_enabled(SYSTICK_IRQ));
    assert_eq!(pfic.get_priority(SYSTICK_IRQ), Priority::P15);
    assert!(driver.is_initialized());
}

#[test]
fn now_divides_counter_by_ratio() {
    let mut driver = driver_at_6_4_mhz();
    assert_eq!(driver.now(), 0);
    driver.advance_counter(13);
    assert_eq!(driver.now(), 2);
    driver.advance_counter(5);
    assert_eq!(driver.now(), 3);
}

#[test]
fn set_alarm_in_the_past_returns_false_and_stays_disarmed() {
    let mut driver = driver_at_6_4_mhz();
    driver.advance_counter(100);
    assert!(!driver.set_alarm(100));
    assert!(!driver.alarm_armed());
    assert!(!driver.set_alarm(50));
    assert!(!driver.alarm_armed());
    assert!(driver.set_alarm(101));
    assert!(driver.alarm_armed());
    assert_eq!(driver.compare_value(), 101);
}

#[test]
fn schedule_wake_notifies_exactly_once_and_not_before() {
    let mut driver = driver_at_6_4_mhz();
    let mut irq = IrqState { enabled: true };
    let (counter, waker) = CountWaker::pair();

    // Tick 2 is counter value 12.
    driver.schedule_wake(2, &waker, &mut irq);
    assert!(irq.enabled);
    assert!(driver.alarm_armed());
    assert_eq!(driver.compare_value(), 12);
    assert_eq!(counter.hits(), 0);

    // One unit before the deadline: not notified.
    driver.advance_counter(11);
    driver.trigger_alarm();
    assert_eq!(counter.hits(), 0);

    // At the deadline: notified exactly once.
    driver.advance_counter(1);
    driver.trigger_alarm();
    assert_eq!(counter.hits(), 1);

    // Long after: not notified again.
    driver.advance_counter(1000);
    driver.trigger_alarm();
    assert_eq!(counter.hits(), 1);
}

#[test]
fn wakers_fire_in_deadline_order() {
    let mut driver = driver_at_6_4_mhz();
    let mut irq = IrqState { enabled: true };
    let (c5, w5) = CountWaker::pair();
    let (c3, w3) = CountWaker::pair();
    let (c8, w8) = CountWaker::pair();

    driver.schedule_wake(5, &w5, &mut irq);
    driver.schedule_wake(3, &w3, &mut irq);
    driver.schedule_wake(8, &w8, &mut irq);

    // The nearest deadline (tick 3 = counter 18) is armed.
    assert_eq!(driver.compare_value(), 18);

    driver.advance_counter(18);
    driver.trigger_alarm();
    assert_eq!((c3.hits(), c5.hits(), c8.hits()), (1, 0, 0));
    assert_eq!(driver.compare_value(), 30);

    driver.advance_counter(12);
    driver.trigger_alarm();
    assert_eq!((c3.hits(), c5.hits(), c8.hits()), (1, 1, 0));
    assert_eq!(driver.compare_value(), 48);

    driver.advance_counter(18);
    driver.trigger_alarm();
    assert_eq!((c3.hits(), c5.hits(), c8.hits()), (1, 1, 1));

    // Nothing left: the compare register idles at the maximum value.
    assert_eq!(driver.compare_value(), u64::MAX);
    assert!(driver.alarm_armed());
}

#[test]
fn schedule_wake_in_the_past_fires_immediately() {
    let mut driver = driver_at_6_4_mhz();
    let mut irq = IrqState { enabled: true };
    let (counter, waker) = CountWaker::pair();
    driver.advance_counter(60);
    // Tick 1 = counter 6, already passed.
    driver.schedule_wake(1, &waker, &mut irq);
    assert_eq!(counter.hits(), 1);
}

#[test]
fn rescheduling_the_same_waker_keeps_the_earlier_deadline() {
    let mut driver = driver_at_6_4_mhz();
    let mut irq = IrqState { enabled: true };
    let (counter, waker) = CountWaker::pair();
    driver.schedule_wake(5, &waker, &mut irq);
    assert_eq!(driver.compare_value(), 30);
    driver.schedule_wake(3, &waker, &mut irq);
    assert_eq!(driver.compare_value(), 18);
    driver.advance_counter(18);
    driver.trigger_alarm();
    assert_eq!(counter.hits(), 1);
    // The entry moved rather than duplicated: nothing fires later.
    driver.advance_counter(100);
    driver.trigger_alarm();
    assert_eq!(counter.hits(), 1);
}

#[test]
fn now_is_nondecreasing_across_operations() {
    let mut driver = driver_at_6_4_mhz();
    let mut irq = IrqState { enabled: true };
    let (_, waker) = CountWaker::pair();
    let mut last = driver.now();
    let steps: [u64; 6] = [1, 7, 0, 13, 2, 40];
    for (k, step) in steps.iter().enumerate() {
        driver.advance_counter(*step);
        if k % 2 == 0 {
            driver.schedule_wake(k as u64, &waker, &mut irq);
        } else {
            driver.trigger_alarm();
        }
        let t = driver.now();
        assert!(t >= last);
        last = t;
    }
}
