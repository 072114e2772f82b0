//! Clock-tree configuration and the protected-register unlock protocol.
//!
//! The system controller's registers are modelled as plain bytes. The
//! write-protected ones (`ck32k_config`, `pll_config`, `clk_sys_cfg`,
//! `hfck_pwr_ctrl`, `flash_cfg`) accept writes only while the unlock-signal
//! register has seen the two-byte unlock sequence; the protocol — enter a
//! critical section, write the two unlock bytes, do the protected writes,
//! relock, restore interrupts — is enforced by the contracts here.
//!
//! Hardware settle delays (busy-wait cycles after powering an oscillator)
//! have no observable register effect; the model records the number of
//! cycles waited so the contracts can state when and how long the code
//! stalls. The delay constants themselves are best-effort hardware timing
//! assumptions, not verified properties of the oscillators.

use vstd::prelude::*;
use crate::critical::{IrqState, SingleHartCriticalSection, spec_release};

verus! {

/// First byte of the unlock sequence for protected registers.
pub const SAFE_UNLOCK_BYTE1: u8 = 0x57;

/// Second byte of the unlock sequence for protected registers.
pub const SAFE_UNLOCK_BYTE2: u8 = 0xA8;

/// Byte written to relock the protected registers.
pub const SAFE_LOCK_BYTE: u8 = 0x00;

/// `ck32k_config`: power on the external 32 kHz crystal oscillator.
pub const CLK_XT32K_PON: u8 = 0x01;

/// `ck32k_config`: power on the internal 32 kHz oscillator.
pub const CLK_INT32K_PON: u8 = 0x02;

/// `ck32k_config`: select the external crystal as the 32 kHz source.
pub const CLK_OSC32K_XT: u8 = 0x04;

/// `hfck_pwr_ctrl`: power on the external high-speed oscillator.
pub const CLK_XT32M_PON: u8 = 0x04;

/// `hfck_pwr_ctrl`: power on the PLL.
pub const CLK_PLL_PON: u8 = 0x10;

/// `clk_sys_cfg`: mask of the two system-clock mode bits.
pub const CLK_SYS_MOD_MASK: u8 = 0xC0;

/// `clk_sys_cfg`: mask of the 5-bit system-clock divider.
pub const CLK_PLL_DIV_MASK: u8 = 0x1F;

/// `pll_config`: reserved bit cleared defensively before any source switch.
pub const PLL_CFG_RESERVED_BIT: u8 = 0x20;

/// `pll_config`: flash-IO mode bit set to finalize a source switch.
pub const FLASH_IO_MOD: u8 = 0x80;

/// `flash_cfg` preset for the external high-speed path.
pub const FLASH_CFG_HSE: u8 = 0x51;

/// `flash_cfg` preset for the PLL path at the maximum safe low-latency
/// divider.
pub const FLASH_CFG_PLL_FAST: u8 = 0x02;

/// `flash_cfg` preset for every other PLL divider.
pub const FLASH_CFG_PLL: u8 = 0x52;

/// The PLL divider value that selects the faster flash preset.
pub const PLL_FAST_DIV: u8 = 6;

/// State of the unlock-signal register's two-step protocol.
#[derive(Clone, Copy, Debug, PartialEq, Eq, Structural)]
pub enum SafeAccessState {
    /// Protected registers reject writes.
    Locked,
    /// The first unlock byte has been seen.
    Primed,
    /// Protected registers accept writes.
    Unlocked,
}

/// Source of the 32 kHz clock.
#[derive(Clone, Copy, Debug, PartialEq, Eq, Structural)]
pub enum Clock32KSrc {
    /// External 32 kHz crystal.
    LSE,
    /// Internal 32 kHz oscillator.
    LSI,
}

/// Source of the system clock.
#[derive(Clone, Copy, Debug, PartialEq, Eq, Structural)]
pub enum ClockSysSrc {
    /// 32 kHz pass-through.
    Clock32K,
    /// External high-speed oscillator with a 5-bit divider.
    HSE(u8),
    /// PLL with a 5-bit divider.
    PLL(u8),
}

/// A clock configuration: which 32 kHz source and which system-clock source
/// to program.
#[derive(Clone, Copy, Debug, PartialEq, Eq, Structural)]
pub struct Config {
    /// Source of the 32 kHz clock.
    pub clock32ksrc: Clock32KSrc,
    /// Source of the system clock.
    pub clocksyssrc: ClockSysSrc,
}

impl Default for Config {
    /// Internal 32 kHz oscillator and the external high-speed oscillator
    /// divided by 5.
    fn default() -> (c: Config)
        ensures
            c.clock32ksrc == Clock32KSrc::LSI,
            c.clocksyssrc == ClockSysSrc::HSE(5),
    {
        Config { clock32ksrc: Clock32KSrc::LSI, clocksyssrc: ClockSysSrc::HSE(5) }
    }
}

impl Config {
    /// 32 kHz pass-through system clock from the internal oscillator.
    pub fn clock32k() -> (c: Config)
        ensures
            c.clock32ksrc == Clock32KSrc::LSI,
            c.clocksyssrc == ClockSysSrc::Clock32K,
    {
        Config { clock32ksrc: Clock32KSrc::LSI, clocksyssrc: ClockSysSrc::Clock32K }
    }

    /// External high-speed oscillator divided by `div`.
    pub fn hse(div: u8) -> (c: Config)
        ensures
            c.clock32ksrc == Clock32KSrc::LSI,
            c.clocksyssrc == ClockSysSrc::HSE(div),
    {
        Config { clock32ksrc: Clock32KSrc::LSI, clocksyssrc: ClockSysSrc::HSE(div) }
    }

    /// PLL divided by `div`.
    pub fn pll(div: u8) -> (c: Config)
        ensures
            c.clock32ksrc == Clock32KSrc::LSI,
            c.clocksyssrc == ClockSysSrc::PLL(div),
    {
        Config { clock32ksrc: Clock32KSrc::LSI, clocksyssrc: ClockSysSrc::PLL(div) }
    }
}

/// Abstract state of the system controller: register bytes, the unlock
/// protocol state, and the cycles spent in settle delays.
pub struct SysView {
    /// 32 kHz source configuration register.
    pub ck32k_config: u8,
    /// High-frequency oscillator power-control register.
    pub hfck_pwr_ctrl: u8,
    /// System-clock mode and divider register.
    pub clk_sys_cfg: u8,
    /// PLL configuration register.
    pub pll_config: u8,
    /// Flash wait-state configuration register.
    pub flash_cfg: u8,
    /// State of the unlock-signal register.
    pub safe_access: SafeAccessState,
    /// Total busy-wait cycles spent in settle delays (saturating).
    pub waited_cycles: u64,
}

/// Effect of one write to the unlock-signal register: the two unlock bytes
/// in order unlock; any other write relocks.
pub open spec fn spec_safe_access_write(s: SafeAccessState, v: u8) -> SafeAccessState {
    if s == SafeAccessState::Locked && v == SAFE_UNLOCK_BYTE1 {
        SafeAccessState::Primed
    } else if s == SafeAccessState::Primed && v == SAFE_UNLOCK_BYTE2 {
        SafeAccessState::Unlocked
    } else {
        SafeAccessState::Locked
    }
}

/// Effect of a settle delay: only the wait accounting moves.
pub open spec fn spec_stall(s: SysView, cycles: u32) -> SysView {
    SysView { waited_cycles: s.waited_cycles.saturating_add(cycles as u64), ..s }
}

/// Decode the live mode and divider fields into the effective system
/// frequency in Hz. A divider of zero on a divided path falls back to the
/// fixed slow value.
pub open spec fn spec_fsys(s: SysView) -> u32 {
    let mode = s.clk_sys_cfg >> 6;
    let div = (s.clk_sys_cfg & CLK_PLL_DIV_MASK) as u32;
    if mode == 0 {
        if div == 0 { 32_000u32 } else { 32_000_000u32 / div }
    } else if mode == 1 {
        if div == 0 { 32_000u32 } else { 480_000_000u32 / div }
    } else if mode == 2 {
        32_000_000
    } else {
        32_000
    }
}

/// Program the 32 kHz source, including its settle delays.
pub open spec fn spec_set_ck32k(s: SysView, src: Clock32KSrc) -> SysView {
    match src {
        Clock32KSrc::LSE => {
            let s1 = SysView { ck32k_config: s.ck32k_config | CLK_XT32K_PON, ..s };
            let s2 = spec_stall(s1, spec_fsys(s1) / 10 / 4);
            let s3 = SysView { ck32k_config: s2.ck32k_config | CLK_OSC32K_XT, ..s2 };
            spec_stall(s3, spec_fsys(s3) / 1000)
        },
        Clock32KSrc::LSI => {
            SysView {
                ck32k_config: (s.ck32k_config & !CLK_OSC32K_XT) | CLK_INT32K_PON,
                ..s
            }
        },
    }
}

/// Settle delay after powering the external high-speed oscillator.
pub const HSE_SETTLE_CYCLES: u32 = 2400;

/// Settle delay after powering the PLL.
pub const PLL_SETTLE_CYCLES: u32 = 4000;

/// Select the system-clock source: power the oscillator if needed (with its
/// settle delay), program mode and divider, then the flash preset.
pub open spec fn spec_set_clocksys(s: SysView, src: ClockSysSrc) -> SysView {
    match src {
        ClockSysSrc::Clock32K => {
            SysView { clk_sys_cfg: (s.clk_sys_cfg & !CLK_SYS_MOD_MASK) | CLK_SYS_MOD_MASK, ..s }
        },
        ClockSysSrc::HSE(div) => {
            let s1 = if s.hfck_pwr_ctrl & CLK_XT32M_PON == 0 {
                spec_stall(
                    SysView { hfck_pwr_ctrl: s.hfck_pwr_ctrl | CLK_XT32M_PON, ..s },
                    HSE_SETTLE_CYCLES,
                )
            } else {
                s
            };
            SysView { clk_sys_cfg: div & CLK_PLL_DIV_MASK, flash_cfg: FLASH_CFG_HSE, ..s1 }
        },
        ClockSysSrc::PLL(div) => {
            let s1 = if s.hfck_pwr_ctrl & CLK_PLL_PON == 0 {
                spec_stall(
                    SysView { hfck_pwr_ctrl: s.hfck_pwr_ctrl | CLK_PLL_PON, ..s },
                    PLL_SETTLE_CYCLES,
                )
            } else {
                s
            };
            SysView {
                clk_sys_cfg: 0x40 | (div & CLK_PLL_DIV_MASK),
                flash_cfg: if div == PLL_FAST_DIV { FLASH_CFG_PLL_FAST } else { FLASH_CFG_PLL },
                ..s1
            }
        },
    }
}

/// Full effect of `set`: program the 32 kHz source, clear the reserved PLL
/// bit, select the system source, set the flash-IO mode bit, and end with
/// the protected registers locked.
pub open spec fn spec_set(s: SysView, c: Config) -> SysView {
    let s1 = spec_set_ck32k(s, c.clock32ksrc);
    let s2 = SysView { pll_config: s1.pll_config & !PLL_CFG_RESERVED_BIT, ..s1 };
    let s3 = spec_set_clocksys(s2, c.clocksyssrc);
    SysView {
        pll_config: s3.pll_config | FLASH_IO_MOD,
        safe_access: SafeAccessState::Locked,
        ..s3
    }
}

/// Model of the system controller's register file.
pub struct Sys {
    ck32k_config: u8,
    hfck_pwr_ctrl: u8,
    clk_sys_cfg: u8,
    pll_config: u8,
    flash_cfg: u8,
    safe_access: SafeAccessState,
    waited_cycles: u64,
}

impl View for Sys {
    type V = SysView;

    closed spec fn view(&self) -> SysView {
        SysView {
            ck32k_config: self.ck32k_config,
            hfck_pwr_ctrl: self.hfck_pwr_ctrl,
            clk_sys_cfg: self.clk_sys_cfg,
            pll_config: self.pll_config,
            flash_cfg: self.flash_cfg,
            safe_access: self.safe_access,
            waited_cycles: self.waited_cycles,
        }
    }
}

/// Clock configuration interface of the system controller.
pub trait SysExt: Sized {
    /// Whether `set` may run: the protected registers must start locked.
    spec fn set_allowed(&self) -> bool;

    /// Program a clock configuration and return the controller.
    fn set(self, config: Config, irq: &mut IrqState) -> Self
        requires
            self.set_allowed(),
    ;

    /// Effective system frequency decoded from the live registers.
    fn fsys(&self) -> u32;
}

impl Sys {
    /// Reset state: all registers zero and the protected registers locked.
    pub fn new() -> (r: Sys)
        ensures
            r@ == (SysView {
                ck32k_config: 0,
                hfck_pwr_ctrl: 0,
                clk_sys_cfg: 0,
                pll_config: 0,
                flash_cfg: 0,
                safe_access: SafeAccessState::Locked,
                waited_cycles: 0,
            }),
    {
        Sys {
            ck32k_config: 0,
            hfck_pwr_ctrl: 0,
            clk_sys_cfg: 0,
            pll_config: 0,
            flash_cfg: 0,
            safe_access: SafeAccessState::Locked,
            waited_cycles: 0,
        }
    }

    /// One write to the unlock-signal register.
    pub fn write_safe_access_sig(&mut self, v: u8)
        ensures
            final(self)@ == (SysView {
                safe_access: spec_safe_access_write(old(self)@.safe_access, v),
                ..old(self)@
            }),
    {
        self.safe_access = if matches!(self.safe_access, SafeAccessState::Locked)
            && v == SAFE_UNLOCK_BYTE1 {
            SafeAccessState::Primed
        } else if matches!(self.safe_access, SafeAccessState::Primed) && v == SAFE_UNLOCK_BYTE2 {
            SafeAccessState::Unlocked
        } else {
            SafeAccessState::Locked
        };
    }

    /// Busy-wait for a settle delay; only the wait accounting changes.
    fn stall(&mut self, cycles: u32)
        ensures
            final(self)@ == spec_stall(old(self)@, cycles),
    {
        self.waited_cycles = self.waited_cycles.saturating_add(cycles as u64);
    }

    /// Whether the protected registers currently accept writes.
    pub open spec fn unlocked(&self) -> bool {
        self@.safe_access == SafeAccessState::Unlocked
    }

    /// Whether the protected registers are locked.
    pub open spec fn locked(&self) -> bool {
        self@.safe_access == SafeAccessState::Locked
    }

    /// Enter safe mode: take the critical section, then write the two
    /// unlock bytes. Returns the interrupt restore token.
    pub fn safe_mode_enter(&mut self, irq: &mut IrqState) -> (token: bool)
        requires
            old(self).locked(),
        ensures
            final(self)@ == (SysView { safe_access: SafeAccessState::Unlocked, ..old(self)@ }),
            !final(irq).enabled,
            token == old(irq).enabled,
    {
        let token = SingleHartCriticalSection::acquire(irq);
        self.write_safe_access_sig(SAFE_UNLOCK_BYTE1);
        self.write_safe_access_sig(SAFE_UNLOCK_BYTE2);
        token
    }

    /// Leave safe mode: relock the protected registers, then restore the
    /// interrupt state recorded by the matching enter.
    pub fn safe_mode_exit(&mut self, irq: &mut IrqState, token: bool)
        ensures
            final(self)@ == (SysView { safe_access: SafeAccessState::Locked, ..old(self)@ }),
            final(irq).enabled == spec_release(old(irq).enabled, token),
    {
        self.write_safe_access_sig(SAFE_LOCK_BYTE);
        SingleHartCriticalSection::release(irq, token);
    }

    /// Whether the protected registers currently accept writes.
    pub fn is_unlocked(&self) -> (r: bool)
        ensures
            r == self.unlocked(),
    {
        matches!(self.safe_access, SafeAccessState::Unlocked)
    }

    /// Total busy-wait cycles spent in settle delays so far.
    pub fn waited_cycles(&self) -> (r: u64)
        ensures
            r == self@.waited_cycles,
    {
        self.waited_cycles
    }

    /// Read the 32 kHz source configuration register.
    pub fn read_ck32k_config(&self) -> (v: u8)
        ensures
            v == self@.ck32k_config,
    {
        self.ck32k_config
    }

    /// Write the 32 kHz source configuration register (protected).
    pub fn write_ck32k_config(&mut self, v: u8)
        requires
            old(self).unlocked(),
        ensures
            final(self)@ == (SysView { ck32k_config: v, ..old(self)@ }),
    {
        self.ck32k_config = v;
    }

    /// Read the high-frequency power-control register.
    pub fn read_hfck_pwr_ctrl(&self) -> (v: u8)
        ensures
            v == self@.hfck_pwr_ctrl,
    {
        self.hfck_pwr_ctrl
    }

    /// Write the high-frequency power-control register (protected).
    pub fn write_hfck_pwr_ctrl(&mut self, v: u8)
        requires
            old(self).unlocked(),
        ensures
            final(self)@ == (SysView { hfck_pwr_ctrl: v, ..old(self)@ }),
    {
        self.hfck_pwr_ctrl = v;
    }

    /// Read the system-clock mode/divider register.
    pub fn read_clk_sys_cfg(&self) -> (v: u8)
        ensures
            v == self@.clk_sys_cfg,
    {
        self.clk_sys_cfg
    }

    /// Write the system-clock mode/divider register (protected).
    pub fn write_clk_sys_cfg(&mut self, v: u8)
        requires
            old(self).unlocked(),
        ensures
            final(self)@ == (SysView { clk_sys_cfg: v, ..old(self)@ }),
    {
        self.clk_sys_cfg = v;
    }

    /// Read the PLL configuration register.
    pub fn read_pll_config(&self) -> (v: u8)
        ensures
            v == self@.pll_config,
    {
        self.pll_config
    }

    /// Write the PLL configuration register (protected).
    pub fn write_pll_config(&mut self, v: u8)
        requires
            old(self).unlocked(),
        ensures
            final(self)@ == (SysView { pll_config: v, ..old(self)@ }),
    {
        self.pll_config = v;
    }

    /// Read the flash wait-state configuration register.
    pub fn read_flash_cfg(&self) -> (v: u8)
        ensures
            v == self@.flash_cfg,
    {
        self.flash_cfg
    }

    /// Write the flash wait-state configuration register (protected).
    pub fn write_flash_cfg(&mut self, v: u8)
        requires
            old(self).unlocked(),
        ensures
            final(self)@ == (SysView { flash_cfg: v, ..old(self)@ }),
    {
        self.flash_cfg = v;
    }
}

impl SysExt for Sys {
    open spec fn set_allowed(&self) -> bool {
        self.locked()
    }

    /// Program a clock configuration: 32 kHz source first, then the
    /// defensive reserved-bit clear, then the system source with its
    /// oscillator power-up and flash preset, then the flash-IO mode bit.
    /// Every protected sub-step takes and releases safe mode on its own,
    /// and the interrupt state ends as it began.
    fn set(self, config: Config, irq: &mut IrqState) -> (r: Sys)
        ensures
            r@ == spec_set(self@, config),
            r.locked(),
            final(irq).enabled == old(irq).enabled,
    {
        let mut sys = self;
        match config.clock32ksrc {
            Clock32KSrc::LSE => {
                let token = sys.safe_mode_enter(irq);
                let v = sys.read_ck32k_config();
                sys.write_ck32k_config(v | CLK_XT32K_PON);
                sys.safe_mode_exit(irq, token);
                let d = sys.fsys() / 10 / 4;
                sys.stall(d);

                let token = sys.safe_mode_enter(irq);
                let v = sys.read_ck32k_config();
                sys.write_ck32k_config(v | CLK_OSC32K_XT);
                sys.safe_mode_exit(irq, token);
                let d = sys.fsys() / 1000;
                sys.stall(d);
            },
            Clock32KSrc::LSI => {
                let token = sys.safe_mode_enter(irq);
                let v = sys.read_ck32k_config();
                sys.write_ck32k_config((v & !CLK_OSC32K_XT) | CLK_INT32K_PON);
                sys.safe_mode_exit(irq, token);
            },
        }

        let token = sys.safe_mode_enter(irq);
        let v = sys.read_pll_config();
        sys.write_pll_config(v & !PLL_CFG_RESERVED_BIT);
        sys.safe_mode_exit(irq, token);

        match config.clocksyssrc {
            ClockSysSrc::Clock32K => {
                let token = sys.safe_mode_enter(irq);
                let v = sys.read_clk_sys_cfg();
                sys.write_clk_sys_cfg((v & !CLK_SYS_MOD_MASK) | CLK_SYS_MOD_MASK);
                sys.safe_mode_exit(irq, token);
            },
            ClockSysSrc::HSE(div) => {
                if sys.read_hfck_pwr_ctrl() & CLK_XT32M_PON == 0 {
                    let token = sys.safe_mode_enter(irq);
                    let v = sys.read_hfck_pwr_ctrl();
                    sys.write_hfck_pwr_ctrl(v | CLK_XT32M_PON);
                    sys.safe_mode_exit(irq, token);
                    sys.stall(HSE_SETTLE_CYCLES);
                }

                let token = sys.safe_mode_enter(irq);
                sys.write_clk_sys_cfg(div & CLK_PLL_DIV_MASK);
                sys.safe_mode_exit(irq, token);

                let token = sys.safe_mode_enter(irq);
                sys.write_flash_cfg(FLASH_CFG_HSE);
                sys.safe_mode_exit(irq, token);
            },
            ClockSysSrc::PLL(div) => {
                if sys.read_hfck_pwr_ctrl() & CLK_PLL_PON == 0 {
                    let token = sys.safe_mode_enter(irq);
                    let v = sys.read_hfck_pwr_ctrl();
                    sys.write_hfck_pwr_ctrl(v | CLK_PLL_PON);
                    sys.safe_mode_exit(irq, token);
                    sys.stall(PLL_SETTLE_CYCLES);
                }

                let token = sys.safe_mode_enter(irq);
                sys.write_clk_sys_cfg(0x40 | (div & CLK_PLL_DIV_MASK));
                sys.safe_mode_exit(irq, token);

                let token = sys.safe_mode_enter(irq);
                if div == PLL_FAST_DIV {
                    sys.write_flash_cfg(FLASH_CFG_PLL_FAST);
                } else {
                    sys.write_flash_cfg(FLASH_CFG_PLL);
                }
                sys.safe_mode_exit(irq, token);
            },
        }

        let token = sys.safe_mode_enter(irq);
        let v = sys.read_pll_config();
        sys.write_pll_config(v | FLASH_IO_MOD);
        sys.safe_mode_exit(irq, token);

        sys
    }

    /// Pure read of the live mode and divider fields; never cached.
    fn fsys(&self) -> (r: u32)
        ensures
            r == spec_fsys(self@),
    {
        let cfg = self.read_clk_sys_cfg();
        let mode = cfg >> 6;
        let div = (cfg & CLK_PLL_DIV_MASK) as u32;
        if mode == 0 {
            if div == 0 { 32_000u32 } else { 32_000_000u32 / div }
        } else if mode == 1 {
            if div == 0 { 32_000u32 } else { 480_000_000u32 / div }
        } else if mode == 2 {
            32_000_000
        } else {
            32_000
        }
    }
}

/// The same register state with the protected registers unlocked.
pub open spec fn spec_unlocked_view(v: SysView) -> SysView {
    SysView { safe_access: SafeAccessState::Unlocked, ..v }
}

/// Run `body` with the protected registers unlocked: take the critical
/// section, write the two unlock bytes, run the body, relock, and restore
/// the interrupt state. The whole window is synchronous and interrupts are
/// masked throughout, so no handler can write a protected register while it
/// is transiently unlocked.
pub fn with_safe_mode<F: FnOnce(Sys) -> Sys>(sys: Sys, irq: &mut IrqState, body: F) -> (r: Sys)
    requires
        sys.locked(),
        forall|s: Sys| s@ == spec_unlocked_view(sys@) ==> call_requires(body, (s,)),
    ensures
        final(irq).enabled == old(irq).enabled,
        r.locked(),
        exists|s_in: Sys, s_out: Sys|
            s_in@ == spec_unlocked_view(sys@) && #[trigger] call_ensures(body, (s_in,), s_out)
                && r@ == (SysView { safe_access: SafeAccessState::Locked, ..s_out@ }),
{
    let mut s = sys;
    let token = s.safe_mode_enter(irq);
    let ghost s_in = s;
    let s_out = body(s);
    let mut s = s_out;
    s.safe_mode_exit(irq, token);
    proof {
        assert(call_ensures(body, (s_in,), s_out));
    }
    s
}

/// After configuring the external high-speed source with an in-range,
/// nonzero divider, the effective frequency is 32 MHz divided by it.
pub proof fn lemma_fsys_after_hse(s: SysView, c32k: Clock32KSrc, div: u8)
    requires
        0 < div < 32,
    ensures
        spec_fsys(spec_set(s, Config { clock32ksrc: c32k, clocksyssrc: ClockSysSrc::HSE(div) }))
            == 32_000_000u32 / (div as u32),
{
    assert(div & CLK_PLL_DIV_MASK == div && div >> 6 == 0) by (bit_vector)
        requires div < 32;
}

/// After configuring the PLL source with an in-range, nonzero divider, the
/// effective frequency is 480 MHz divided by it.
pub proof fn lemma_fsys_after_pll(s: SysView, c32k: Clock32KSrc, div: u8)
    requires
        0 < div < 32,
    ensures
        spec_fsys(spec_set(s, Config { clock32ksrc: c32k, clocksyssrc: ClockSysSrc::PLL(div) }))
            == 480_000_000u32 / (div as u32),
{
    let cfg = 0x40u8 | (div & CLK_PLL_DIV_MASK);
    assert(cfg & CLK_PLL_DIV_MASK == div && cfg >> 6 == 1) by (bit_vector)
        requires div < 32, cfg == 0x40u8 | (div & CLK_PLL_DIV_MASK);
}

/// After configuring the 32 kHz pass-through source, the effective
/// frequency is the fixed slow fallback value.
pub proof fn lemma_fsys_after_clock32k(s: SysView, c32k: Clock32KSrc)
    ensures
        spec_fsys(spec_set(s, Config { clock32ksrc: c32k, clocksyssrc: ClockSysSrc::Clock32K }))
            == 32_000,
{
    let s1 = spec_set_ck32k(s, c32k);
    let s2 = SysView { pll_config: s1.pll_config & !PLL_CFG_RESERVED_BIT, ..s1 };
    let base = s2.clk_sys_cfg;
    let cfg = (base & !CLK_SYS_MOD_MASK) | CLK_SYS_MOD_MASK;
    assert(cfg >> 6 == 3) by (bit_vector)
        requires cfg == (base & !0xC0u8) | 0xC0u8;
}

} // verus!
