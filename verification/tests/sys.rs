use mcu_core::critical::IrqState;
use mcu_core::sys::with_safe_mode;
use mcu_core::sys::{
    Config, Sys, SysExt, FLASH_CFG_HSE, FLASH_CFG_PLL, FLASH_CFG_PLL_FAST, HSE_SETTLE_CYCLES,
    PLL_SETTLE_CYCLES, SAFE_LOCK_BYTE, SAFE_UNLOCK_BYTE1, SAFE_UNLOCK_BYTE2,
};

fn configured(config: Config) -> (Sys, IrqState) {
    let mut irq = IrqState { enabled: true };
    let sys = Sys::new().set(config, &mut irq);
    (sys, irq)
}

#[test]
fn hse_divided_by_five_gives_6_4_mhz() {
    let (sys, irq) = configured(Config::hse(5));
    assert_eq!(sys.fsys(), 32_000_000 / 5);
    assert!(irq.enabled);
}

#[test]
fn pll_divided_by_six_gives_80_mhz() {
    let (sys, _) = configured(Config::pll(6));
    assert_eq!(sys.fsys(), 480_000_000 / 6);
    assert_eq!(sys.read_flash_cfg(), FLASH_CFG_PLL_FAST);
}

#[test]
fn pll_divided_by_eight_gives_60_mhz() {
    let (sys, _) = configured(Config::pll(8));
    assert_eq!(sys.fsys(), 60_000_000);
    assert_eq!(sys.read_flash_cfg(), FLASH_CFG_PLL);
}

#[test]
fn clock32k_gives_slow_fallback() {
    let (sys, _) = configured(Config::clock32k());
    assert_eq!(sys.fsys(), 32_000);
}

#[test]
fn default_config_is_hse_divided_by_five() {
    let (sys, _) = configured(Config::default());
    assert_eq!(sys.fsys(), 6_400_000);
    assert_eq!(sys.read_flash_cfg(), FLASH_CFG_HSE);
}

#[test]
fn zero_divider_falls_back_to_slow_value() {
    let (sys, _) = configured(Config::hse(0));
    assert_eq!(sys.fsys(), 32_000);
}

#[test]
fn divider_is_masked_to_five_bits() {
    // 37 & 0x1F == 5, so this behaves as a divider of 5.
    let (sys, _) = configured(Config::hse(37));
    assert_eq!(sys.fsys(), 6_400_000);
}

#[test]
fn fresh_oscillator_power_up_waits_for_settle() {
    let (sys, _) = configured(Config::pll(8));
    assert_eq!(sys.waited_cycles(), PLL_SETTLE_CYCLES as u64);
    // Reconfiguring with the PLL already powered does not wait again.
    let mut irq = IrqState { enabled: true };
    let sys = sys.set(Config::pll(6), &mut irq);
    assert_eq!(sys.waited_cycles(), PLL_SETTLE_CYCLES as u64);
    assert_eq!(sys.fsys(), 80_000_000);
}

#[test]
fn hse_power_up_waits_for_its_settle_delay() {
    let (sys, _) = configured(Config::hse(5));
    assert_eq!(sys.waited_cycles(), HSE_SETTLE_CYCLES as u64);
}

#[test]
fn set_leaves_registers_locked_and_interrupts_restored() {
    let mut irq = IrqState { enabled: false };
    let sys = Sys::new().set(Config::pll(6), &mut irq);
    assert!(!sys.is_unlocked());
    assert!(!irq.enabled);
}

#[test]
fn unlock_needs_both_bytes_in_order() {
    let mut sys = Sys::new();
    assert!(!sys.is_unlocked());
    sys.write_safe_access_sig(SAFE_UNLOCK_BYTE1);
    assert!(!sys.is_unlocked());
    sys.write_safe_access_sig(SAFE_UNLOCK_BYTE2);
    assert!(sys.is_unlocked());
    sys.write_safe_access_sig(SAFE_LOCK_BYTE);
    assert!(!sys.is_unlocked());

    // The second byte alone, or the pair in the wrong order, stays locked.
    let mut sys = Sys::new();
    sys.write_safe_access_sig(SAFE_UNLOCK_BYTE2);
    assert!(!sys.is_unlocked());
    sys.write_safe_access_sig(SAFE_UNLOCK_BYTE2);
    sys.write_safe_access_sig(SAFE_UNLOCK_BYTE1);
    assert!(!sys.is_unlocked());
}

#[test]
fn safe_mode_enter_masks_interrupts_and_exit_restores() {
    let mut sys = Sys::new();
    let mut irq = IrqState { enabled: true };
    let token = sys.safe_mode_enter(&mut irq);
    assert!(sys.is_unlocked());
    assert!(!irq.enabled);
    sys.safe_mode_exit(&mut irq, token);
    assert!(!sys.is_unlocked());
    assert!(irq.enabled);
}

#[test]
fn with_safe_mode_brackets_the_body() {
    let mut irq = IrqState { enabled: true };
    let sys = Sys::new();
    let sys = with_safe_mode(sys, &mut irq, |mut s| {
        assert!(s.is_unlocked());
        s.write_flash_cfg(0x33);
        s
    });
    assert_eq!(sys.read_flash_cfg(), 0x33);
    assert!(!sys.is_unlocked());
    assert!(irq.enabled);
}
