//! Programmable fast interrupt controller: per-interrupt enable, pending,
//! active and priority state, addressed by a flat bit/byte indexing scheme.
//!
//! An interrupt id maps to the word at offset `id / 32` and the bit
//! `id % 32` of the enable, pending and active banks; priorities live in a
//! flat byte array, one byte per id. The hardware's write-one-to-set and
//! write-one-to-clear banks are modelled by the underlying state they affect,
//! so enabling and reading back "is enabled" go through the same model word
//! even though the physical accesses use different register banks.

use vstd::prelude::*;
use vstd::arithmetic::div_mod::lemma_fundamental_div_mod;

verus! {

/// Number of 32-bit words in each of the enable, pending and active banks.
pub const INTERRUPT_WORDS: usize = 8;

/// Size of the flat interrupt-id namespace: every `u8` id is in range.
pub const INTERRUPT_COUNT: usize = 256;

/// Interrupt priority: 16 ordinal levels; higher values preempt lower.
#[derive(Clone, Copy, Debug, PartialEq, Eq, Structural)]
pub enum Priority {
    P0,
    P1,
    P2,
    P3,
    P4,
    P5,
    P6,
    P7,
    P8,
    P9,
    P10,
    P11,
    P12,
    P13,
    P14,
    P15,
}

/// Numeric level of a priority, 0 through 15.
pub open spec fn priority_number(p: Priority) -> u8 {
    match p {
        Priority::P0 => 0,
        Priority::P1 => 1,
        Priority::P2 => 2,
        Priority::P3 => 3,
        Priority::P4 => 4,
        Priority::P5 => 5,
        Priority::P6 => 6,
        Priority::P7 => 7,
        Priority::P8 => 8,
        Priority::P9 => 9,
        Priority::P10 => 10,
        Priority::P11 => 11,
        Priority::P12 => 12,
        Priority::P13 => 13,
        Priority::P14 => 14,
        Priority::P15 => 15,
    }
}

impl Priority {
    /// The numeric level stored in the hardware priority byte.
    pub fn number(&self) -> (n: u8)
        ensures
            n == priority_number(*self),
            n < 16,
    {
        match self {
            Priority::P0 => 0,
            Priority::P1 => 1,
            Priority::P2 => 2,
            Priority::P3 => 3,
            Priority::P4 => 4,
            Priority::P5 => 5,
            Priority::P6 => 6,
            Priority::P7 => 7,
            Priority::P8 => 8,
            Priority::P9 => 9,
            Priority::P10 => 10,
            Priority::P11 => 11,
            Priority::P12 => 12,
            Priority::P13 => 13,
            Priority::P14 => 14,
            Priority::P15 => 15,
        }
    }

    /// Decode a hardware priority byte. A byte outside the representable
    /// range can only come from broken hardware; the caller rules it out.
    pub fn from_number(n: u8) -> (p: Priority)
        requires
            n < 16,
        ensures
            priority_number(p) == n,
    {
        match n {
            0 => Priority::P0,
            1 => Priority::P1,
            2 => Priority::P2,
            3 => Priority::P3,
            4 => Priority::P4,
            5 => Priority::P5,
            6 => Priority::P6,
            7 => Priority::P7,
            8 => Priority::P8,
            9 => Priority::P9,
            10 => Priority::P10,
            11 => Priority::P11,
            12 => Priority::P12,
            13 => Priority::P13,
            14 => Priority::P14,
            _ => Priority::P15,
        }
    }
}

/// Abstract state of the interrupt controller: the three bit banks and the
/// priority byte array.
pub struct PficView {
    /// Enable bank: one bit per interrupt id.
    pub enabled: Seq<u32>,
    /// Pending bank: one bit per interrupt id.
    pub pending: Seq<u32>,
    /// Active bank: one bit per interrupt id; written only by hardware.
    pub active: Seq<u32>,
    /// Priority bytes, one per interrupt id.
    pub priority: Seq<u8>,
}

/// Whether bit `i` of a bank is set, under the `(i / 32, i % 32)` layout.
pub open spec fn bank_bit(words: Seq<u32>, i: int) -> bool {
    (words[i / 32] >> ((i % 32) as u32)) & 1u32 == 1u32
}

/// Well-formed controller state: bank and priority-array sizes match the
/// layout, and every priority byte decodes to a representable level.
pub open spec fn pfic_wf(v: PficView) -> bool {
    &&& v.enabled.len() == INTERRUPT_WORDS
    &&& v.pending.len() == INTERRUPT_WORDS
    &&& v.active.len() == INTERRUPT_WORDS
    &&& v.priority.len() == INTERRUPT_COUNT
    &&& forall|j: int| 0 <= j < INTERRUPT_COUNT ==> v.priority[j] < 16
}

/// Set bit `i` of a bank, leaving every other bit unchanged.
pub open spec fn bank_set_bit(words: Seq<u32>, i: int) -> Seq<u32> {
    words.update(i / 32, words[i / 32] | (1u32 << ((i % 32) as u32)))
}

/// Clear bit `i` of a bank, leaving every other bit unchanged.
pub open spec fn bank_clear_bit(words: Seq<u32>, i: int) -> Seq<u32> {
    words.update(i / 32, words[i / 32] & !(1u32 << ((i % 32) as u32)))
}

/// State transition of `enable`.
pub open spec fn spec_enable(v: PficView, i: int) -> PficView {
    PficView { enabled: bank_set_bit(v.enabled, i), ..v }
}

/// State transition of `disable`.
pub open spec fn spec_disable(v: PficView, i: int) -> PficView {
    PficView { enabled: bank_clear_bit(v.enabled, i), ..v }
}

/// State transition of `pend`.
pub open spec fn spec_pend(v: PficView, i: int) -> PficView {
    PficView { pending: bank_set_bit(v.pending, i), ..v }
}

/// State transition of `unpend`.
pub open spec fn spec_unpend(v: PficView, i: int) -> PficView {
    PficView { pending: bank_clear_bit(v.pending, i), ..v }
}

/// State transition of `set_priority`.
pub open spec fn spec_set_priority(v: PficView, i: int, p: Priority) -> PficView {
    PficView { priority: v.priority.update(i, priority_number(p)), ..v }
}

/// Model of the interrupt controller's register file.
pub struct Pfic {
    enabled: Vec<u32>,
    pending: Vec<u32>,
    active: Vec<u32>,
    priority: Vec<u8>,
}

impl View for Pfic {
    type V = PficView;

    closed spec fn view(&self) -> PficView {
        PficView {
            enabled: self.enabled@,
            pending: self.pending@,
            active: self.active@,
            priority: self.priority@,
        }
    }
}

proof fn lemma_or_bit(w: u32, b: u32, b2: u32)
    requires
        b < 32,
        b2 < 32,
    ensures
        ((w | (1u32 << b)) >> b) & 1u32 == 1u32,
        b2 != b ==> ((w | (1u32 << b)) >> b2) & 1u32 == (w >> b2) & 1u32,
{
    assert(((w | (1u32 << b)) >> b) & 1u32 == 1u32) by (bit_vector)
        requires b < 32;
    assert(b2 != b && b2 < 32 && b < 32 ==> ((w | (1u32 << b)) >> b2) & 1u32 == (w >> b2) & 1u32)
        by (bit_vector);
}

proof fn lemma_clear_bit(w: u32, b: u32, b2: u32)
    requires
        b < 32,
        b2 < 32,
    ensures
        ((w & !(1u32 << b)) >> b) & 1u32 == 0u32,
        b2 != b ==> ((w & !(1u32 << b)) >> b2) & 1u32 == (w >> b2) & 1u32,
{
    assert(((w & !(1u32 << b)) >> b) & 1u32 == 0u32) by (bit_vector)
        requires b < 32;
    assert(b2 != b && b2 < 32 && b < 32 ==> ((w & !(1u32 << b)) >> b2) & 1u32 == (w >> b2) & 1u32)
        by (bit_vector);
}

/// Two ids with the same word offset and the same bit index are equal.
proof fn lemma_id_from_word_bit(i: int, j: int)
    requires
        0 <= i < INTERRUPT_COUNT,
        0 <= j < INTERRUPT_COUNT,
        i / 32 == j / 32,
        i % 32 == j % 32,
    ensures
        i == j,
{
    lemma_fundamental_div_mod(i, 32);
    lemma_fundamental_div_mod(j, 32);
}

/// Setting bit `i` makes exactly bit `i` of the bank true and leaves every
/// other bit as it was.
pub proof fn lemma_bank_set_bit(words: Seq<u32>, i: int)
    requires
        words.len() == INTERRUPT_WORDS,
        0 <= i < INTERRUPT_COUNT,
    ensures
        bank_bit(bank_set_bit(words, i), i),
        forall|j: int|
            0 <= j < INTERRUPT_COUNT && j != i
                ==> bank_bit(bank_set_bit(words, i), j) == bank_bit(words, j),
{
    let updated = bank_set_bit(words, i);
    assert forall|j: int| 0 <= j < INTERRUPT_COUNT implies bank_bit(updated, j)
        == (j == i || bank_bit(words, j)) by {
        lemma_or_bit(words[i / 32], (i % 32) as u32, (j % 32) as u32);
        if j != i && j / 32 == i / 32 && j % 32 == i % 32 {
            lemma_id_from_word_bit(i, j);
        }
    }
}

/// Clearing bit `i` makes exactly bit `i` of the bank false and leaves every
/// other bit as it was.
pub proof fn lemma_bank_clear_bit(words: Seq<u32>, i: int)
    requires
        words.len() == INTERRUPT_WORDS,
        0 <= i < INTERRUPT_COUNT,
    ensures
        !bank_bit(bank_clear_bit(words, i), i),
        forall|j: int|
            0 <= j < INTERRUPT_COUNT && j != i
                ==> bank_bit(bank_clear_bit(words, i), j) == bank_bit(words, j),
{
    let updated = bank_clear_bit(words, i);
    assert forall|j: int| 0 <= j < INTERRUPT_COUNT implies bank_bit(updated, j)
        == (j != i && bank_bit(words, j)) by {
        lemma_clear_bit(words[i / 32], (i % 32) as u32, (j % 32) as u32);
        if j != i && j / 32 == i / 32 && j % 32 == i % 32 {
            lemma_id_from_word_bit(i, j);
        }
    }
}

/// Interrupt-controller interface: per-interrupt enable, pending, active
/// and priority management over the flat id namespace.
pub trait PficExt {
    /// Well-formedness of the controller state.
    spec fn wf(&self) -> bool;

    /// Write the id's bit to the enable-set bank.
    fn enable(&mut self, interrupt: u8)
        requires
            old(self).wf(),
        ensures
            final(self).wf(),
    ;

    /// Write the id's bit to the enable-clear bank.
    fn disable(&mut self, interrupt: u8)
        requires
            old(self).wf(),
        ensures
            final(self).wf(),
    ;

    /// Read the id's bit from the enable-status bank.
    fn is_enabled(&self, interrupt: u8) -> bool
        requires
            self.wf(),
    ;

    /// Read the id's bit from the pending-status bank.
    fn is_pending(&self, interrupt: u8) -> bool
        requires
            self.wf(),
    ;

    /// Write the id's bit to the pending-set bank.
    fn pend(&mut self, interrupt: u8)
        requires
            old(self).wf(),
        ensures
            final(self).wf(),
    ;

    /// Write the id's bit to the pending-clear bank.
    fn unpend(&mut self, interrupt: u8)
        requires
            old(self).wf(),
        ensures
            final(self).wf(),
    ;

    /// Read the id's bit from the active-status bank.
    fn is_active(&self, interrupt: u8) -> bool
        requires
            self.wf(),
    ;

    /// Write the numeric priority to the byte at index `interrupt`.
    fn set_priority(&mut self, interrupt: u8, priority: Priority)
        requires
            old(self).wf(),
        ensures
            final(self).wf(),
    ;

    /// Re-derive the interrupt's priority level from its byte.
    fn get_priority(&self, interrupt: u8) -> Priority
        requires
            self.wf(),
    ;
}

impl Pfic {
    /// A controller with every interrupt disabled, nothing pending or
    /// active, and all priorities at the lowest level.
    pub fn new() -> (r: Pfic)
        ensures
            pfic_wf(r@),
            forall|j: int| 0 <= j < INTERRUPT_COUNT ==> !bank_bit(r@.enabled, j),
            forall|j: int| 0 <= j < INTERRUPT_COUNT ==> !bank_bit(r@.pending, j),
            forall|j: int| 0 <= j < INTERRUPT_COUNT ==> !bank_bit(r@.active, j),
            forall|j: int| 0 <= j < INTERRUPT_COUNT ==> r@.priority[j] == 0,
    {
        let r = Pfic {
            enabled: vec![0u32; INTERRUPT_WORDS],
            pending: vec![0u32; INTERRUPT_WORDS],
            active: vec![0u32; INTERRUPT_WORDS],
            priority: vec![0u8; INTERRUPT_COUNT],
        };
        proof {
            assert forall|j: int| 0 <= j < INTERRUPT_COUNT implies !bank_bit(r@.enabled, j) by {
                let b2 = (j % 32) as u32;
                assert((0u32 >> b2) & 1u32 == 0u32) by (bit_vector);
            }
            assert forall|j: int| 0 <= j < INTERRUPT_COUNT implies !bank_bit(r@.pending, j) by {
                let b2 = (j % 32) as u32;
                assert((0u32 >> b2) & 1u32 == 0u32) by (bit_vector);
            }
            assert forall|j: int| 0 <= j < INTERRUPT_COUNT implies !bank_bit(r@.active, j) by {
                let b2 = (j % 32) as u32;
                assert((0u32 >> b2) & 1u32 == 0u32) by (bit_vector);
            }
        }
        r
    }
}

impl PficExt for Pfic {
    open spec fn wf(&self) -> bool {
        pfic_wf(self@)
    }

    /// Write the id's bit to the enable-set bank.
    fn enable(&mut self, interrupt: u8)
        ensures
            final(self)@ == spec_enable(old(self)@, interrupt as int),
    {
        let off = (interrupt as usize) / 32;
        let bit = (interrupt as u32) % 32;
        let w = self.enabled[off];
        self.enabled[off] = w | (1u32 << bit);
    }

    /// Write the id's bit to the enable-clear bank.
    fn disable(&mut self, interrupt: u8)
        ensures
            final(self)@ == spec_disable(old(self)@, interrupt as int),
    {
        let off = (interrupt as usize) / 32;
        let bit = (interrupt as u32) % 32;
        let w = self.enabled[off];
        self.enabled[off] = w & !(1u32 << bit);
    }

    /// Read the id's bit from the enable-status bank.
    fn is_enabled(&self, interrupt: u8) -> (r: bool)
        ensures
            r == bank_bit(self@.enabled, interrupt as int),
    {
        let off = (interrupt as usize) / 32;
        let bit = (interrupt as u32) % 32;
        (self.enabled[off] >> bit) & 1u32 == 1u32
    }

    /// Read the id's bit from the pending-status bank.
    fn is_pending(&self, interrupt: u8) -> (r: bool)
        ensures
            r == bank_bit(self@.pending, interrupt as int),
    {
        let off = (interrupt as usize) / 32;
        let bit = (interrupt as u32) % 32;
        (self.pending[off] >> bit) & 1u32 == 1u32
    }

    /// Write the id's bit to the pending-set bank.
    fn pend(&mut self, interrupt: u8)
        ensures
            final(self)@ == spec_pend(old(self)@, interrupt as int),
    {
        let off = (interrupt as usize) / 32;
        let bit = (interrupt as u32) % 32;
        let w = self.pending[off];
        self.pending[off] = w | (1u32 << bit);
    }

    /// Write the id's bit to the pending-clear bank.
    fn unpend(&mut self, interrupt: u8)
        ensures
            final(self)@ == spec_unpend(old(self)@, interrupt as int),
    {
        let off = (interrupt as usize) / 32;
        let bit = (interrupt as u32) % 32;
        let w = self.pending[off];
        self.pending[off] = w & !(1u32 << bit);
    }

    /// Read the id's bit from the active-status bank.
    fn is_active(&self, interrupt: u8) -> (r: bool)
        ensures
            r == bank_bit(self@.active, interrupt as int),
    {
        let off = (interrupt as usize) / 32;
        let bit = (interrupt as u32) % 32;
        (self.active[off] >> bit) & 1u32 == 1u32
    }

    /// Write the numeric priority to the byte at index `interrupt`.
    fn set_priority(&mut self, interrupt: u8, priority: Priority)
        ensures
            final(self)@ == spec_set_priority(old(self)@, interrupt as int, priority),
    {
        self.priority[interrupt as usize] = priority.number();
    }

    /// Re-derive the interrupt's priority level from its byte. Under the
    /// well-formedness invariant the byte always decodes.
    fn get_priority(&self, interrupt: u8) -> (p: Priority)
        ensures
            priority_number(p) == self@.priority[interrupt as int],
    {
        Priority::from_number(self.priority[interrupt as usize])
    }
}

/// Enabling an interrupt is observable: afterwards exactly that id reads
/// back enabled, and no other enable bit, nor any pending, active or
/// priority state, has moved.
pub proof fn lemma_enable_observable(v: PficView, i: int)
    requires
        pfic_wf(v),
        0 <= i < INTERRUPT_COUNT,
    ensures
        bank_bit(spec_enable(v, i).enabled, i),
        forall|j: int|
            0 <= j < INTERRUPT_COUNT && j != i
                ==> bank_bit(spec_enable(v, i).enabled, j) == bank_bit(v.enabled, j),
        spec_enable(v, i).pending == v.pending,
        spec_enable(v, i).active == v.active,
        spec_enable(v, i).priority == v.priority,
{
    lemma_bank_set_bit(v.enabled, i);
}

/// Disabling an interrupt is observable: afterwards exactly that id reads
/// back disabled, with the same frame condition as enabling.
pub proof fn lemma_disable_observable(v: PficView, i: int)
    requires
        pfic_wf(v),
        0 <= i < INTERRUPT_COUNT,
    ensures
        !bank_bit(spec_disable(v, i).enabled, i),
        forall|j: int|
            0 <= j < INTERRUPT_COUNT && j != i
                ==> bank_bit(spec_disable(v, i).enabled, j) == bank_bit(v.enabled, j),
        spec_disable(v, i).pending == v.pending,
        spec_disable(v, i).active == v.active,
        spec_disable(v, i).priority == v.priority,
{
    lemma_bank_clear_bit(v.enabled, i);
}

/// Setting a priority and reading it back returns the same level, and no
/// other interrupt's priority moves.
pub proof fn lemma_priority_roundtrip(v: PficView, i: int, p: Priority)
    requires
        pfic_wf(v),
        0 <= i < INTERRUPT_COUNT,
    ensures
        spec_set_priority(v, i, p).priority[i] == priority_number(p),
        forall|j: int|
            0 <= j < INTERRUPT_COUNT && j != i
                ==> spec_set_priority(v, i, p).priority[j] == v.priority[j],
{
}

} // verus!
