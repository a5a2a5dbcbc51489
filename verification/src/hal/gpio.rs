//! One pin of a GPIO port.

use vstd::prelude::*;
use crate::bus::{modify_accesses, Access, Mmio, RegisterBus};
use crate::hal::peripheral_clock::PeripheralClock;
use crate::stm32f4xx::regs::gpio::{GpioPort, GpioRegs};

verus! {

/// The port that a pin belongs to.
pub type Port = GpioPort;

impl Port {
    /// The clock gate that belongs to this GPIO block.
    pub fn get_clock(&self) -> (clock: PeripheralClock)
        ensures
            clock == port_clock(*self),
    {
        match self {
            GpioPort::PortA => PeripheralClock::GpioA,
            GpioPort::PortB => PeripheralClock::GpioB,
            GpioPort::PortC => PeripheralClock::GpioC,
            GpioPort::PortD => PeripheralClock::GpioD,
            GpioPort::PortE => PeripheralClock::GpioE,
            GpioPort::PortF => PeripheralClock::GpioF,
            GpioPort::PortG => PeripheralClock::GpioG,
            GpioPort::PortH => PeripheralClock::GpioH,
            GpioPort::PortI => PeripheralClock::GpioI,
        }
    }
}

/// The clock gate of each port.
pub open spec fn port_clock(port: Port) -> PeripheralClock {
    match port {
        GpioPort::PortA => PeripheralClock::GpioA,
        GpioPort::PortB => PeripheralClock::GpioB,
        GpioPort::PortC => PeripheralClock::GpioC,
        GpioPort::PortD => PeripheralClock::GpioD,
        GpioPort::PortE => PeripheralClock::GpioE,
        GpioPort::PortF => PeripheralClock::GpioF,
        GpioPort::PortG => PeripheralClock::GpioG,
        GpioPort::PortH => PeripheralClock::GpioH,
        GpioPort::PortI => PeripheralClock::GpioI,
    }
}

#[derive(Clone, Copy, Debug, PartialEq, Eq, Structural)]
pub enum PinMode {
    Input,
    Output,
    AltFunc,
    Analog,
}

#[derive(Clone, Copy, Debug, PartialEq, Eq, Structural)]
pub enum PinOutputType {
    PushPull,
    OpenDrain,
}

#[derive(Clone, Copy, Debug, PartialEq, Eq, Structural)]
pub enum PinSpeed {
    Low,
    Medium,
    High,
    VeryHigh,
}

#[derive(Clone, Copy, Debug, PartialEq, Eq, Structural)]
pub enum PinPullUpDown {
    NoPullUpDown,
    PullUp,
    PullDown,
}

impl PinMode {
    /// The two bits that select the mode in the mode register.
    pub open spec fn bits(self) -> u32 {
        match self {
            PinMode::Input => 0,
            PinMode::Output => 1,
            PinMode::AltFunc => 2,
            PinMode::Analog => 3,
        }
    }

    pub fn code(self) -> (bits: u32)
        ensures
            bits == self.bits(),
    {
        match self {
            PinMode::Input => 0,
            PinMode::Output => 1,
            PinMode::AltFunc => 2,
            PinMode::Analog => 3,
        }
    }
}

impl PinSpeed {
    /// The two bits that select the speed in the output speed register.
    pub open spec fn bits(self) -> u32 {
        match self {
            PinSpeed::Low => 0,
            PinSpeed::Medium => 1,
            PinSpeed::High => 2,
            PinSpeed::VeryHigh => 3,
        }
    }

    pub fn code(self) -> (bits: u32)
        ensures
            bits == self.bits(),
    {
        match self {
            PinSpeed::Low => 0,
            PinSpeed::Medium => 1,
            PinSpeed::High => 2,
            PinSpeed::VeryHigh => 3,
        }
    }
}

impl PinPullUpDown {
    /// The two bits that select the resistor in the pull-up/pull-down register.
    pub open spec fn bits(self) -> u32 {
        match self {
            PinPullUpDown::NoPullUpDown => 0,
            PinPullUpDown::PullUp => 1,
            PinPullUpDown::PullDown => 2,
        }
    }

    pub fn code(self) -> (bits: u32)
        ensures
            bits == self.bits(),
    {
        match self {
            PinPullUpDown::NoPullUpDown => 0,
            PinPullUpDown::PullUp => 1,
            PinPullUpDown::PullDown => 2,
        }
    }
}

/// `word` with the two-bit field of pin `pin` replaced by `bits`.
pub open spec fn with_pair(word: u32, pin: u8, bits: u32) -> u32 {
    (word & !(0b11u32 << (2 * pin) as u32)) | (bits << (2 * pin) as u32)
}

/// The two-bit field of pin `pin` in `word`.
pub open spec fn pair_of(word: u32, pin: u8) -> u32 {
    (word >> (2 * pin) as u32) & 0b11
}

/// Replacing the field of one pin gives that field the new value and
/// leaves the field of every other pin as it was.
pub proof fn law_pair_replaced(word: u32, pin: u8, bits: u32)
    requires
        pin < 16,
        bits < 4,
    ensures
        pair_of(with_pair(word, pin, bits), pin) == bits,
        forall|other: u8| other < 16 && other != pin ==> pair_of(
            #[trigger] with_pair(word, pin, bits),
            other,
        ) == pair_of(word, other),
{
    let shift: u32 = (2 * pin) as u32;
    assert(shift <= 30 && bits < 4 ==> (((word & !(0b11u32 << shift)) | (bits << shift)) >> shift)
        & 0b11 == bits) by (bit_vector);
    assert forall|other: u8| other < 16 && other != pin implies pair_of(
        #[trigger] with_pair(word, pin, bits),
        other,
    ) == pair_of(word, other) by {
        let far: u32 = (2 * other) as u32;
        assert(shift <= 30 && far <= 30 && bits < 4 && shift % 2 == 0 && far % 2 == 0 && far != shift
            ==> (((word & !(0b11u32 << shift)) | (bits << shift)) >> far) & 0b11 == (word >> far)
            & 0b11) by (bit_vector);
    }
}

/// A pin: its port, its number in the port, and the mode it was last given.
pub struct Pin {
    port: Port,
    pin_num: u8,
    mode: PinMode,
}

impl Pin {
    #[verifier::type_invariant]
    spec fn in_range(self) -> bool {
        self.pin_num < 16
    }

    pub closed spec fn spec_port(&self) -> Port {
        self.port
    }

    pub closed spec fn spec_pin_num(&self) -> u8 {
        self.pin_num
    }

    pub closed spec fn spec_mode(&self) -> PinMode {
        self.mode
    }

    /// The port that the pin belongs to.
    #[verifier::when_used_as_spec(spec_port)]
    pub fn port(&self) -> (port: Port)
        ensures
            port == self.port(),
    {
        self.port
    }

    /// The number of the pin in its port, below 16.
    #[verifier::when_used_as_spec(spec_pin_num)]
    pub fn pin_num(&self) -> (pin_num: u8)
        ensures
            pin_num == self.pin_num(),
            pin_num < 16,
    {
        proof {
            use_type_invariant(self);
        }
        self.pin_num
    }

    /// The mode that the pin was last given through this handle.
    #[verifier::when_used_as_spec(spec_mode)]
    pub fn mode(&self) -> (mode: PinMode)
        ensures
            mode == self.mode(),
    {
        self.mode
    }

    /// Pin `pin_num` of `port`. A port has sixteen pins.
    pub fn init(port: Port, pin_num: u8) -> (pin: Pin)
        requires
            pin_num < 16,
        ensures
            pin.port() == port,
            pin.pin_num() == pin_num,
            pin.mode() == PinMode::Input,
    {
        Pin { port, pin_num, mode: PinMode::Input }
    }

    /// Opens the clock gate of the pin's port.
    pub fn enable_clock<B: RegisterBus>(&self, bus: &mut Mmio<B>)
        ensures
            ({
                let clock = port_clock(self.port());
                let seen = final(bus).loaded(old(bus).history().len());
                final(bus).history() == (old(bus).history() + modify_accesses(
                    clock.register().address(),
                    seen,
                    seen | clock.bit(),
                )).push(Access::Barrier)
            }),
    {
        self.port.get_clock().enable(bus);
    }

    /// Gives the pin the mode `mode`: the pin's field in the mode register is
    /// replaced, the fields of the other pins are stored back as they were seen.
    pub fn setup_mode<B: RegisterBus>(&mut self, bus: &mut Mmio<B>, mode: PinMode)
        ensures
            final(self).port() == old(self).port(),
            final(self).pin_num() == old(self).pin_num(),
            final(self).mode() == mode,
            ({
                let seen = final(bus).loaded(old(bus).history().len());
                final(bus).history() == old(bus).history() + modify_accesses(
                    old(self).port().base(),
                    seen,
                    with_pair(seen, old(self).pin_num(), mode.bits()),
                )
            }),
    {
        proof {
            use_type_invariant(&*self);
        }
        let gpio = GpioRegs::init(self.port);
        let mut mask: u32 = 0b11 << (2 * self.pin_num);
        mask = !mask;

        let val: u32 = mode.code() << (2 * self.pin_num);
        let mut mode_reg: u32 = gpio.moder.get(bus);

        mode_reg &= mask;
        mode_reg |= val;
        gpio.moder.set(bus, mode_reg);

        self.mode = mode;
    }

    /// Makes the pin's output push-pull or open-drain: one bit of the output
    /// type register is cleared or set, the others are stored back as seen.
    pub fn setup_output_type<B: RegisterBus>(&self, bus: &mut Mmio<B>, output_type: PinOutputType)
        ensures
            ({
                let seen = final(bus).loaded(old(bus).history().len());
                let bit = 1u32 << self.pin_num();
                final(bus).history() == old(bus).history() + modify_accesses(
                    (self.port().base() + 4 * 1) as u32,
                    seen,
                    match output_type {
                        PinOutputType::OpenDrain => seen | bit,
                        PinOutputType::PushPull => seen & !bit,
                    },
                )
            }),
    {
        proof {
            use_type_invariant(self);
        }
        let gpio = GpioRegs::init(self.port);

        let val: u32 = 1u32 << self.pin_num;

        match output_type {
            PinOutputType::OpenDrain => gpio.otyper.bit_or(bus, val),
            PinOutputType::PushPull => gpio.otyper.bit_and(bus, !val),
        }
    }

    /// Gives the pin the output speed `speed`: the pin's field in the output
    /// speed register is replaced, the other fields are stored back as seen.
    pub fn setup_speed<B: RegisterBus>(&self, bus: &mut Mmio<B>, speed: PinSpeed)
        ensures
            ({
                let seen = final(bus).loaded(old(bus).history().len());
                final(bus).history() == old(bus).history() + modify_accesses(
                    (self.port().base() + 4 * 2) as u32,
                    seen,
                    with_pair(seen, self.pin_num(), speed.bits()),
                )
            }),
    {
        proof {
            use_type_invariant(self);
        }
        let gpio = GpioRegs::init(self.port);
        let seen: u32 = gpio.ospeedr.get(bus);
        gpio.ospeedr.set(bus, replace_pair(seen, self.pin_num, speed.code()));
    }

    /// Gives the pin the resistor `pull_up_down`: the pin's field in the
    /// pull-up/pull-down register is replaced, the other fields are stored
    /// back as seen.
    pub fn setup_pull_up_down<B: RegisterBus>(&self, bus: &mut Mmio<B>, pull_up_down: PinPullUpDown)
        ensures
            ({
                let seen = final(bus).loaded(old(bus).history().len());
                final(bus).history() == old(bus).history() + modify_accesses(
                    (self.port().base() + 4 * 3) as u32,
                    seen,
                    with_pair(seen, self.pin_num(), pull_up_down.bits()),
                )
            }),
    {
        proof {
            use_type_invariant(self);
        }
        let gpio = GpioRegs::init(self.port);
        let seen: u32 = gpio.pupdr.get(bus);
        gpio.pupdr.set(bus, replace_pair(seen, self.pin_num, pull_up_down.code()));
    }

    /// Sets the bits of `alt_func` in the pin's four-bit field of the
    /// alternate function registers: the low register holds pins 0 to 7, the
    /// high one pins 8 to 15. Bits that are set already stay set.
    pub fn setup_alt_func<B: RegisterBus>(&self, bus: &mut Mmio<B>, alt_func: u32)
        ensures
            ({
                let seen = final(bus).loaded(old(bus).history().len());
                final(bus).history() == old(bus).history() + modify_accesses(
                    alt_func_address(self.port(), self.pin_num()),
                    seen,
                    seen | (alt_func << alt_func_shift(self.pin_num())),
                )
            }),
    {
        proof {
            use_type_invariant(self);
        }
        let gpio = GpioRegs::init(self.port);
        if self.pin_num < 8 {
            gpio.afrl.bit_or(bus, alt_func << (self.pin_num * 4));
        } else {
            gpio.afrh.bit_or(bus, alt_func << ((self.pin_num - 8) * 4));
        }
    }

    /// Gives the pin its whole configuration, register by register: mode,
    /// output type, speed, pull. Each is a read-modify-write of its own.
    pub fn configure<B: RegisterBus>(
        &mut self,
        bus: &mut Mmio<B>,
        mode: PinMode,
        output_type: PinOutputType,
        speed: PinSpeed,
        pull_up_down: PinPullUpDown,
    )
        ensures
            final(self).port() == old(self).port(),
            final(self).pin_num() == old(self).pin_num(),
            final(self).mode() == mode,
            ({
                let start = old(bus).history().len();
                let base = old(self).port().base();
                let pin = old(self).pin_num();
                let bit = 1u32 << pin;
                let seen_mode = final(bus).loaded(start);
                let seen_type = final(bus).loaded(start + 2);
                let seen_speed = final(bus).loaded(start + 4);
                let seen_pull = final(bus).loaded(start + 6);
                final(bus).history() == old(bus).history() + modify_accesses(
                    base,
                    seen_mode,
                    with_pair(seen_mode, pin, mode.bits()),
                ) + modify_accesses(
                    (base + 4 * 1) as u32,
                    seen_type,
                    match output_type {
                        PinOutputType::OpenDrain => seen_type | bit,
                        PinOutputType::PushPull => seen_type & !bit,
                    },
                ) + modify_accesses(
                    (base + 4 * 2) as u32,
                    seen_speed,
                    with_pair(seen_speed, pin, speed.bits()),
                ) + modify_accesses(
                    (base + 4 * 3) as u32,
                    seen_pull,
                    with_pair(seen_pull, pin, pull_up_down.bits()),
                )
            }),
    {
        self.setup_mode(bus, mode);
        self.setup_output_type(bus, output_type);
        self.setup_speed(bus, speed);
        self.setup_pull_up_down(bus, pull_up_down);
    }

    /// Drives the pin high or low by one store to the bit set/reset register:
    /// bit `n` sets pin `n`, bit `n + 16` resets it. Nothing is loaded, so a
    /// change of another pin between a load and a store cannot be lost.
    pub fn set<B: RegisterBus>(&self, bus: &mut Mmio<B>, val: bool)
        ensures
            final(bus).history() == old(bus).history().push(
                Access::Store {
                    address: (self.port().base() + 4 * 6) as u32,
                    value: set_reset_word(self.pin_num(), val),
                },
            ),
    {
        proof {
            use_type_invariant(self);
        }
        let regs = GpioRegs::init(self.port);
        if val {
            regs.bsrr.set(bus, 1u32 << self.pin_num);
        } else {
            regs.bsrr.set(bus, 1u32 << (self.pin_num + 16));
        }
    }

    /// The level at the pin, 0 or 1, by one load of the input data register.
    pub fn get<B: RegisterBus>(&self, bus: &mut Mmio<B>) -> (level: u32)
        ensures
            level <= 1,
            ({
                let seen = final(bus).loaded(old(bus).history().len());
                &&& level == level_of(seen, self.pin_num())
                &&& final(bus).history() == old(bus).history().push(
                    Access::Load { address: (self.port().base() + 4 * 4) as u32, value: seen },
                )
            }),
    {
        proof {
            use_type_invariant(self);
        }
        let regs = GpioRegs::init(self.port);
        let mut val: u32;

        val = regs.idr.get(bus);
        let ghost seen = val;
        let ghost pin = self.pin_num;
        val >>= self.pin_num;
        val &= 1;
        assert(val <= 1) by (bit_vector)
            requires
                val == (seen >> pin) & 1,
        ;
        val
    }

    /// Drives the pin to the opposite of the level that is loaded from it,
    /// and returns the new level. The load and the store are not atomic.
    pub fn toggle<B: RegisterBus>(&self, bus: &mut Mmio<B>) -> (level: u32)
        ensures
            ({
                let seen = final(bus).loaded(old(bus).history().len());
                let was = level_of(seen, self.pin_num());
                &&& level == 1 - was
                &&& final(bus).history() == old(bus).history().push(
                    Access::Load { address: (self.port().base() + 4 * 4) as u32, value: seen },
                ).push(
                    Access::Store {
                        address: (self.port().base() + 4 * 6) as u32,
                        value: set_reset_word(self.pin_num(), was == 0),
                    },
                )
            }),
    {
        if self.get(bus) == 1 {
            self.set(bus, false);
            0
        } else {
            self.set(bus, true);
            1
        }
    }
}

/// The level of pin `pin` in a word of the input data register.
pub open spec fn level_of(word: u32, pin: u8) -> u32 {
    (word >> pin) & 1
}

/// The word that drives pin `pin` high or low through the bit set/reset
/// register.
pub open spec fn set_reset_word(pin: u8, high: bool) -> u32 {
    if high {
        1u32 << pin
    } else {
        1u32 << (pin + 16) as u8
    }
}

/// The alternate function register that holds the field of pin `pin`.
pub open spec fn alt_func_address(port: Port, pin: u8) -> u32 {
    if pin < 8 {
        (port.base() + 4 * 8) as u32
    } else {
        (port.base() + 4 * 9) as u32
    }
}

/// Where the field of pin `pin` starts in its alternate function register.
pub open spec fn alt_func_shift(pin: u8) -> u8 {
    if pin < 8 {
        (pin * 4) as u8
    } else {
        ((pin - 8) * 4) as u8
    }
}

/// `word` with the two-bit field of pin `pin` replaced by `bits`.
fn replace_pair(word: u32, pin: u8, bits: u32) -> (replaced: u32)
    requires
        pin < 16,
    ensures
        replaced == with_pair(word, pin, bits),
{
    (word & !(0b11u32 << (2 * pin))) | (bits << (2 * pin))
}

} // verus!
