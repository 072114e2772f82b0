//! Critical-section primitive: global-interrupt mask and restore.
//!
//! The core's global interrupt-enable bit lives in a control-status register;
//! it is modelled here as [`IrqState`]. Acquiring a critical section reads and
//! clears that bit in one step and hands back the previous value as a restore
//! token; releasing re-enables interrupts only if the token says they were
//! enabled before. Nested sections are therefore idempotent: an inner pair
//! never re-enables interrupts that an outer section disabled.

use vstd::prelude::*;

verus! {

/// Model of the core's global interrupt-enable status bit.
pub struct IrqState {
    /// Whether maskable interrupts are currently enabled.
    pub enabled: bool,
}

/// Single-core critical-section implementation: one hardware execution
/// context, so masking interrupts is the sole mutual-exclusion mechanism.
pub struct SingleHartCriticalSection;

/// State of the interrupt-enable bit right after an acquire: always masked.
pub open spec fn spec_acquire_state(s: bool) -> bool {
    false
}

/// Restore token handed out by an acquire: the prior interrupt-enable state.
pub open spec fn spec_acquire_token(s: bool) -> bool {
    s
}

/// State after a release: re-enabled only if the token says interrupts were
/// enabled when the matching acquire ran; a release never disables.
pub open spec fn spec_release(s: bool, token: bool) -> bool {
    s || token
}

impl SingleHartCriticalSection {
    /// Read the interrupt-enable bit, clear it, and return the old value as
    /// the restore token.
    pub fn acquire(irq: &mut IrqState) -> (token: bool)
        ensures
            final(irq).enabled == spec_acquire_state(old(irq).enabled),
            token == spec_acquire_token(old(irq).enabled),
    {
        let token = irq.enabled;
        irq.enabled = false;
        token
    }

    /// Re-enable interrupts only if they were enabled before the matching
    /// acquire.
    pub fn release(irq: &mut IrqState, restore_state: bool)
        ensures
            final(irq).enabled == spec_release(old(irq).enabled, restore_state),
    {
        if restore_state {
            irq.enabled = true;
        }
    }
}

/// `intsyscr`: hardware stack-push function enable.
pub const INTSYSCR_HWSTKEN: u32 = 0x1;

/// `intsyscr`: interrupt nesting enable.
pub const INTSYSCR_INESTEN: u32 = 0x2;

/// `corecfgr` value enabling the pipeline control and dynamic prediction
/// bits.
pub const CORECFGR_BOOT: u32 = 0x1F;

/// Model of the core configuration CSRs written once at startup.
#[derive(Clone, Copy, Debug, PartialEq, Eq, Structural)]
pub struct CoreCsrs {
    /// Core configuration register: pipeline and prediction control.
    pub corecfgr: u32,
    /// Interrupt system control register.
    pub intsyscr: u32,
}

/// Runtime post-initialization hook: enable the pipeline and prediction
/// controls, then nested interrupts and the hardware stack-push function.
pub fn post_init(csrs: &mut CoreCsrs)
    ensures
        final(csrs).corecfgr == CORECFGR_BOOT,
        final(csrs).intsyscr == INTSYSCR_HWSTKEN | INTSYSCR_INESTEN,
{
    csrs.corecfgr = CORECFGR_BOOT;
    csrs.intsyscr = INTSYSCR_HWSTKEN | INTSYSCR_INESTEN;
}

/// Interrupt-enable state after running `depth` balanced acquire/release
/// pairs from state `s`.
pub open spec fn spec_nested_pairs(s: bool, depth: nat) -> bool
    decreases depth,
{
    if depth == 0 {
        s
    } else {
        let inner = spec_release(spec_acquire_state(s), spec_acquire_token(s));
        spec_nested_pairs(inner, (depth - 1) as nat)
    }
}

/// Nested critical sections are safe: after an outer acquire, any number of
/// balanced inner acquire/release pairs leaves interrupts masked, and the
/// outer release restores exactly the state seen before the outer acquire.
pub proof fn lemma_nested_critical_sections(s0: bool, depth: nat)
    ensures
        spec_nested_pairs(spec_acquire_state(s0), depth) == false,
        spec_release(
            spec_nested_pairs(spec_acquire_state(s0), depth),
            spec_acquire_token(s0),
        ) == s0,
    decreases depth,
{
    if depth > 0 {
        lemma_nested_critical_sections(s0, (depth - 1) as nat);
    }
}

} // verus!
