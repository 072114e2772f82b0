use mcu_core::pfic::{Pfic, PficExt, Priority};

#[test]
fn enable_then_is_enabled() {
    let mut pfic = Pfic::new();
    assert!(!pfic.is_enabled(42));
    pfic.enable(42);
    assert!(pfic.is_enabled(42));
    pfic.disable(42);
    assert!(!pfic.is_enabled(42));
}

#[test]
fn enable_touches_exactly_one_bit() {
    let mut pfic = Pfic::new();
    pfic.enable(5);
    for i in 0..=255u8 {
        assert_eq!(pfic.is_enabled(i), i == 5);
        assert!(!pfic.is_pending(i));
        assert!(!pfic.is_active(i));
    }
}

#[test]
fn enable_across_word_boundaries() {
    let mut pfic = Pfic::new();
    pfic.enable(31);
    pfic.enable(32);
    pfic.enable(255);
    assert!(pfic.is_enabled(31));
    assert!(pfic.is_enabled(32));
    assert!(pfic.is_enabled(255));
    assert!(!pfic.is_enabled(33));
    pfic.disable(32);
    assert!(pfic.is_enabled(31));
    assert!(!pfic.is_enabled(32));
    assert!(pfic.is_enabled(255));
}

#[test]
fn pend_then_is_pending() {
    let mut pfic = Pfic::new();
    pfic.pend(9);
    assert!(pfic.is_pending(9));
    assert!(!pfic.is_pending(8));
    assert!(!pfic.is_enabled(9));
    pfic.unpend(9);
    assert!(!pfic.is_pending(9));
}

#[test]
fn priority_roundtrip() {
    let mut pfic = Pfic::new();
    let levels = [
        Priority::P0,
        Priority::P1,
        Priority::P7,
        Priority::P8,
        Priority::P14,
        Priority::P15,
    ];
    for (k, p) in levels.iter().enumerate() {
        pfic.set_priority(k as u8, *p);
    }
    for (k, p) in levels.iter().enumerate() {
        assert_eq!(pfic.get_priority(k as u8), *p);
    }
}

#[test]
fn set_priority_leaves_other_interrupts_alone() {
    let mut pfic = Pfic::new();
    pfic.set_priority(10, Priority::P3);
    pfic.set_priority(11, Priority::P9);
    assert_eq!(pfic.get_priority(10), Priority::P3);
    assert_eq!(pfic.get_priority(11), Priority::P9);
    assert_eq!(pfic.get_priority(12), Priority::P0);
}
