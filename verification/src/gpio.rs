//! General-purpose I/O with type-state pin configuration.
//!
//! A port's registers (direction, output, pull-up, pull-down/drive, input
//! level) are modelled as plain words. Each configuration transition is a
//! consuming conversion between tagged pin states, and every operation's
//! contract pins down the single register bit it touches.

use vstd::prelude::*;
use core::marker::PhantomData;

verus! {

/// Number of pins in a port's register word.
pub const PORT_PINS: u8 = 32;

/// Number of pins handed out by `split`.
pub const SPLIT_PINS: u8 = 16;

/// Default pin mode after reset.
pub type DefaultMode = Floating;

/// Input mode (type state).
pub struct Input<MODE> {
    _mode: PhantomData<MODE>,
}

/// Floating input (type state).
pub struct Floating;

/// Pulled down input (type state).
pub struct PullDown;

/// Pulled up input (type state).
pub struct PullUp;

/// Output mode (type state).
pub struct Output<MODE> {
    _mode: PhantomData<MODE>,
}

/// Push-pull output at 5 mA drive (type state).
pub struct PushPull5mA;

/// Push-pull output at 20 mA drive (type state).
pub struct PushPull20mA;

/// Whether bit `i` of a register word is set.
pub open spec fn word_bit(w: u32, i: u8) -> bool {
    (w >> (i as u32)) & 1u32 == 1u32
}

/// Set bit `i` of a register word.
pub open spec fn word_set_bit(w: u32, i: u8) -> u32 {
    w | (1u32 << (i as u32))
}

/// Clear bit `i` of a register word.
pub open spec fn word_clear_bit(w: u32, i: u8) -> u32 {
    w & !(1u32 << (i as u32))
}

/// Model of one GPIO port's register block.
#[derive(Clone, Copy, Debug, PartialEq, Eq, Structural)]
pub struct GpioPort {
    /// Direction register: set bits are outputs.
    pub dir: u32,
    /// Output latch; reads back what is driven.
    pub out: u32,
    /// Pull-up configuration register.
    pub pu: u32,
    /// Pull-down/drive configuration register.
    pub pd_drv: u32,
    /// Input-level register: the externally observed pin levels.
    pub levels: u32,
}

impl GpioPort {
    /// A port with every register at its reset value.
    pub fn new() -> (r: GpioPort)
        ensures
            r == (GpioPort { dir: 0, out: 0, pu: 0, pd_drv: 0, levels: 0 }),
    {
        GpioPort { dir: 0, out: 0, pu: 0, pd_drv: 0, levels: 0 }
    }

    /// Drive an external level onto a pin, as the outside world does.
    pub fn set_input_level(&mut self, i: u8, high: bool)
        requires
            i < PORT_PINS,
        ensures
            *final(self) == (GpioPort {
                levels: if high {
                    word_set_bit(old(self).levels, i)
                } else {
                    word_clear_bit(old(self).levels, i)
                },
                ..*old(self)
            }),
    {
        if high {
            self.levels = self.levels | (1u32 << (i as u32));
        } else {
            self.levels = self.levels & !(1u32 << (i as u32));
        }
    }
}

/// A pin with its number erased into a field, tagged by its mode.
pub struct Pin<MODE> {
    i: u8,
    _mode: PhantomData<MODE>,
}

impl<MODE> Pin<MODE> {
    /// The pin's bit index fits its port word.
    pub closed spec fn wf(&self) -> bool {
        self.i < PORT_PINS
    }

    /// The pin's bit index.
    pub closed spec fn spec_id(&self) -> u8 {
        self.i
    }

    /// The pin's bit index.
    pub fn get_id(&self) -> (r: u8)
        ensures
            r == self.spec_id(),
    {
        self.i
    }

    /// Configure the pin as a floating input: direction, pull-up and
    /// pull-down/drive bits all cleared.
    pub fn into_floating_input(self, port: &mut GpioPort) -> (r: Pin<Input<Floating>>)
        requires
            self.wf(),
        ensures
            r.wf(),
            r.spec_id() == self.spec_id(),
            *final(port) == (GpioPort {
                dir: word_clear_bit(old(port).dir, self.spec_id()),
                pu: word_clear_bit(old(port).pu, self.spec_id()),
                pd_drv: word_clear_bit(old(port).pd_drv, self.spec_id()),
                ..*old(port)
            }),
    {
        port.dir = port.dir & !(1u32 << (self.i as u32));
        port.pu = port.pu & !(1u32 << (self.i as u32));
        port.pd_drv = port.pd_drv & !(1u32 << (self.i as u32));
        Pin { i: self.i, _mode: PhantomData }
    }

    /// Configure the pin as a pulled-down input.
    pub fn into_pull_down_input(self, port: &mut GpioPort) -> (r: Pin<Input<PullDown>>)
        requires
            self.wf(),
        ensures
            r.wf(),
            r.spec_id() == self.spec_id(),
            *final(port) == (GpioPort {
                dir: word_clear_bit(old(port).dir, self.spec_id()),
                pu: word_set_bit(old(port).pu, self.spec_id()),
                pd_drv: word_clear_bit(old(port).pd_drv, self.spec_id()),
                ..*old(port)
            }),
    {
        port.dir = port.dir & !(1u32 << (self.i as u32));
        port.pu = port.pu | (1u32 << (self.i as u32));
        port.pd_drv = port.pd_drv & !(1u32 << (self.i as u32));
        Pin { i: self.i, _mode: PhantomData }
    }

    /// Configure the pin as a pulled-up input.
    pub fn into_pull_up_input(self, port: &mut GpioPort) -> (r: Pin<Input<PullUp>>)
        requires
            self.wf(),
        ensures
            r.wf(),
            r.spec_id() == self.spec_id(),
            *final(port) == (GpioPort {
                dir: word_clear_bit(old(port).dir, self.spec_id()),
                pu: word_clear_bit(old(port).pu, self.spec_id()),
                pd_drv: word_set_bit(old(port).pd_drv, self.spec_id()),
                ..*old(port)
            }),
    {
        port.dir = port.dir & !(1u32 << (self.i as u32));
        port.pu = port.pu & !(1u32 << (self.i as u32));
        port.pd_drv = port.pd_drv | (1u32 << (self.i as u32));
        Pin { i: self.i, _mode: PhantomData }
    }

    /// Configure the pin as a push-pull output at 5 mA drive.
    pub fn into_push_pull_5ma_output(self, port: &mut GpioPort) -> (r: Pin<Output<PushPull5mA>>)
        requires
            self.wf(),
        ensures
            r.wf(),
            r.spec_id() == self.spec_id(),
            *final(port) == (GpioPort {
                dir: word_set_bit(old(port).dir, self.spec_id()),
                pd_drv: word_clear_bit(old(port).pd_drv, self.spec_id()),
                ..*old(port)
            }),
    {
        port.dir = port.dir | (1u32 << (self.i as u32));
        port.pd_drv = port.pd_drv & !(1u32 << (self.i as u32));
        Pin { i: self.i, _mode: PhantomData }
    }

    /// Configure the pin as a push-pull output at 20 mA drive.
    pub fn into_push_pull_20ma_output(self, port: &mut GpioPort) -> (r: Pin<Output<PushPull20mA>>)
        requires
            self.wf(),
        ensures
            r.wf(),
            r.spec_id() == self.spec_id(),
            *final(port) == (GpioPort {
                dir: word_set_bit(old(port).dir, self.spec_id()),
                pd_drv: word_set_bit(old(port).pd_drv, self.spec_id()),
                ..*old(port)
            }),
    {
        port.dir = port.dir | (1u32 << (self.i as u32));
        port.pd_drv = port.pd_drv | (1u32 << (self.i as u32));
        Pin { i: self.i, _mode: PhantomData }
    }
}

impl<MODE> Pin<Output<MODE>> {
    /// Drive the pin high: set its output-latch bit and no other.
    pub fn set_high(&self, port: &mut GpioPort)
        requires
            self.wf(),
        ensures
            *final(port) == (GpioPort {
                out: word_set_bit(old(port).out, self.spec_id()),
                ..*old(port)
            }),
    {
        port.out = port.out | (1u32 << (self.i as u32));
    }

    /// Drive the pin low through the clear register: clear its output-latch
    /// bit and no other.
    pub fn set_low(&self, port: &mut GpioPort)
        requires
            self.wf(),
        ensures
            *final(port) == (GpioPort {
                out: word_clear_bit(old(port).out, self.spec_id()),
                ..*old(port)
            }),
    {
        port.out = port.out & !(1u32 << (self.i as u32));
    }

    /// Whether the output latch drives the pin high.
    pub fn is_set_high(&self, port: &GpioPort) -> (r: bool)
        requires
            self.wf(),
        ensures
            r == word_bit(port.out, self.spec_id()),
    {
        !self.is_set_low(port)
    }

    /// Whether the output latch drives the pin low.
    pub fn is_set_low(&self, port: &GpioPort) -> (r: bool)
        requires
            self.wf(),
        ensures
            r == !word_bit(port.out, self.spec_id()),
    {
        proof {
            let w = port.out;
            let b = self.i as u32;
            assert((w & (1u32 << b) == 0) == !((w >> b) & 1u32 == 1u32)) by (bit_vector)
                requires b < 32;
        }
        port.out & (1u32 << (self.i as u32)) == 0
    }
}

impl<MODE> Pin<Input<MODE>> {
    /// Whether the external pin level reads high.
    pub fn is_high(&self, port: &GpioPort) -> (r: bool)
        requires
            self.wf(),
        ensures
            r == word_bit(port.levels, self.spec_id()),
    {
        !self.is_low(port)
    }

    /// Whether the external pin level reads low.
    pub fn is_low(&self, port: &GpioPort) -> (r: bool)
        requires
            self.wf(),
        ensures
            r == !word_bit(port.levels, self.spec_id()),
    {
        proof {
            let w = port.levels;
            let b = self.i as u32;
            assert((w & (1u32 << b) == 0) == !((w >> b) & 1u32 == 1u32)) by (bit_vector)
                requires b < 32;
        }
        port.levels & (1u32 << (self.i as u32)) == 0
    }
}

/// Extension trait to split a GPIO peripheral into independent pins and
/// its register block.
pub trait GpioExt {
    /// The parts to split the GPIO into.
    type Parts;

    /// Splits the GPIO block into independent pins and registers.
    fn split(self) -> Self::Parts;
}

/// The parts of a split port: the register block and its pins, all in the
/// default (floating input) mode.
pub struct GpioParts {
    /// The port's register block.
    pub port: GpioPort,
    /// One erased pin per bit index, in order.
    pub pins: Vec<Pin<Input<DefaultMode>>>,
}

impl GpioExt for GpioPort {
    type Parts = GpioParts;

    fn split(self) -> (parts: GpioParts)
        ensures
            parts.port == self,
            parts.pins@.len() == SPLIT_PINS,
            forall|k: int|
                0 <= k < parts.pins@.len() ==> (#[trigger] parts.pins@[k]).wf()
                    && parts.pins@[k].spec_id() == k,
    {
        let mut pins: Vec<Pin<Input<DefaultMode>>> = Vec::new();
        let mut i: u8 = 0;
        while i < SPLIT_PINS
            invariant
                i <= SPLIT_PINS,
                pins@.len() == i,
                forall|k: int|
                    0 <= k < pins@.len() ==> (#[trigger] pins@[k]).wf() && pins@[k].spec_id() == k,
            decreases SPLIT_PINS - i,
        {
            pins.push(Pin { i, _mode: PhantomData });
            i = i + 1;
        }
        GpioParts { port: self, pins }
    }
}

} // verus!
