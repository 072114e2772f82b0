use mcu_core::critical::{post_init, CoreCsrs, IrqState, SingleHartCriticalSection, CORECFGR_BOOT, INTSYSCR_HWSTKEN, INTSYSCR_INESTEN};

#[test]
fn acquire_masks_and_returns_prior_state() {
    let mut irq = IrqState { enabled: true };
    let token = SingleHartCriticalSection::acquire(&mut irq);
    assert!(token);
    assert!(!irq.enabled);
    SingleHartCriticalSection::release(&mut irq, token);
    assert!(irq.enabled);
}

#[test]
fn release_does_not_enable_when_token_says_disabled() {
    let mut irq = IrqState { enabled: false };
    let token = SingleHartCriticalSection::acquire(&mut irq);
    assert!(!token);
    assert!(!irq.enabled);
    SingleHartCriticalSection::release(&mut irq, token);
    assert!(!irq.enabled);
}

#[test]
fn nested_sections_restore_outer_state() {
    let mut irq = IrqState { enabled: true };
    let outer = SingleHartCriticalSection::acquire(&mut irq);
    assert!(!irq.enabled);
    for _ in 0..5 {
        let inner = SingleHartCriticalSection::acquire(&mut irq);
        assert!(!inner);
        // Interrupts stay masked throughout the inner section.
        assert!(!irq.enabled);
        SingleHartCriticalSection::release(&mut irq, inner);
        // An inner release never re-enables what the outer section masked.
        assert!(!irq.enabled);
    }
    SingleHartCriticalSection::release(&mut irq, outer);
    assert!(irq.enabled);
}

#[test]
fn deeply_nested_sections_keep_interrupts_masked() {
    let mut irq = IrqState { enabled: true };
    let mut tokens = Vec::new();
    for _ in 0..8 {
        tokens.push(SingleHartCriticalSection::acquire(&mut irq));
        assert!(!irq.enabled);
    }
    while let Some(token) = tokens.pop() {
        SingleHartCriticalSection::release(&mut irq, token);
        assert_eq!(irq.enabled, tokens.is_empty());
    }
    assert!(irq.enabled);
}

#[test]
fn post_init_enables_nesting_and_hardware_stack() {
    let mut csrs = CoreCsrs { corecfgr: 0, intsyscr: 0 };
    post_init(&mut csrs);
    assert_eq!(csrs.corecfgr, CORECFGR_BOOT);
    assert_eq!(csrs.intsyscr, INTSYSCR_HWSTKEN | INTSYSCR_INESTEN);
    assert_eq!(csrs.intsyscr, 0x3);
}
