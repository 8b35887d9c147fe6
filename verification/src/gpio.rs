//! GPIO controller.
//!
//! A pin's register block is a plain [`Registers`] value; the methods of
//! [`GPIOPin`] take the block of the pin's port and state what they leave in
//! each register.

use vstd::prelude::*;
use crate::exti::{self, Exti, LineState, accepts, with_exti_source, NUM_LINES};
use crate::helpers::{
    Bit, BitRange, with_field, field_of, bit_of, with_bit, low_mask, lemma_field_read_after_write,
    lemma_field_disjoint, lemma_bit_is_one_bit_field,
};
use crate::syscfg;

verus! {

/// Address of the register block of port A; the blocks of the other ports follow it.
pub const BASE_ADDRESS: usize = 0x4002_0000;

/// Size of one port's register block.
pub const SIZE: usize = 0x400;

/// Number of pins of one port.
pub const PINS_PER_PORT: usize = 16;

/// Number of entries of a [`PortMap`]: sixteen pins for each of the ten ports.
pub const PORT_MAP_LEN: usize = 160;

#[derive(Copy, Clone, Debug, PartialEq, Eq, Structural)]
pub enum PortNum {
    A,
    B,
    C,
    D,
    E,
    F,
    G,
    H,
    I,
    J,
}

impl PortNum {
    /// The port's number: `A` is 0, `J` is 9.
    pub open spec fn value(self) -> u32 {
        match self {
            PortNum::A => 0,
            PortNum::B => 1,
            PortNum::C => 2,
            PortNum::D => 3,
            PortNum::E => 4,
            PortNum::F => 5,
            PortNum::G => 6,
            PortNum::H => 7,
            PortNum::I => 8,
            PortNum::J => 9,
        }
    }

    pub fn as_u32(self) -> (r: u32)
        ensures
            r == self.value(),
            r == self as u32,
    {
        match self {
            PortNum::A => 0,
            PortNum::B => 1,
            PortNum::C => 2,
            PortNum::D => 3,
            PortNum::E => 4,
            PortNum::F => 5,
            PortNum::G => 6,
            PortNum::H => 7,
            PortNum::I => 8,
            PortNum::J => 9,
        }
    }
}

#[derive(Copy, Clone, Debug, PartialEq, Eq, Structural)]
pub enum Mode {
    Input,
    Output,
    AlternateFunction,
    Analog,
}

impl Mode {
    /// The two-bit MODER encoding.
    pub open spec fn value(self) -> u32 {
        match self {
            Mode::Input => 0,
            Mode::Output => 1,
            Mode::AlternateFunction => 2,
            Mode::Analog => 3,
        }
    }

    pub fn as_u32(self) -> (r: u32)
        ensures
            r == self.value(),
            r == self as u32,
    {
        match self {
            Mode::Input => 0,
            Mode::Output => 1,
            Mode::AlternateFunction => 2,
            Mode::Analog => 3,
        }
    }
}

#[derive(Copy, Clone, Debug, PartialEq, Eq, Structural)]
pub enum OutputMode {
    PushPull,
    OpenDrain,
}

impl OutputMode {
    /// The one-bit OTYPER encoding.
    pub open spec fn value(self) -> u32 {
        match self {
            OutputMode::PushPull => 0,
            OutputMode::OpenDrain => 1,
        }
    }

    pub fn as_u32(self) -> (r: u32)
        ensures
            r == self.value(),
            r == self as u32,
    {
        match self {
            OutputMode::PushPull => 0,
            OutputMode::OpenDrain => 1,
        }
    }
}

#[derive(Copy, Clone, Debug, PartialEq, Eq, Structural)]
pub enum OutputSpeed {
    Low,
    Medium,
    High,
    VeryHigh,
}

impl OutputSpeed {
    /// The two-bit OSPEEDR encoding.
    pub open spec fn value(self) -> u32 {
        match self {
            OutputSpeed::Low => 0,
            OutputSpeed::Medium => 1,
            OutputSpeed::High => 2,
            OutputSpeed::VeryHigh => 3,
        }
    }

    pub fn as_u32(self) -> (r: u32)
        ensures
            r == self.value(),
            r == self as u32,
    {
        match self {
            OutputSpeed::Low => 0,
            OutputSpeed::Medium => 1,
            OutputSpeed::High => 2,
            OutputSpeed::VeryHigh => 3,
        }
    }
}

#[derive(Copy, Clone, Debug, PartialEq, Eq, Structural)]
pub enum PullUpDownMode {
    PullNone,
    PullUp,
    PullDown,
}

impl PullUpDownMode {
    /// The two-bit PUPDR encoding.
    pub open spec fn value(self) -> u32 {
        match self {
            PullUpDownMode::PullNone => 0,
            PullUpDownMode::PullUp => 1,
            PullUpDownMode::PullDown => 2,
        }
    }

    pub fn as_u32(self) -> (r: u32)
        ensures
            r == self.value(),
            r == self as u32,
    {
        match self {
            PullUpDownMode::PullNone => 0,
            PullUpDownMode::PullUp => 1,
            PullUpDownMode::PullDown => 2,
        }
    }
}

#[derive(Copy, Clone, Debug, PartialEq, Eq, Structural)]
pub enum AlternateFunction {
    AF0,
    AF1,
    AF2,
    AF3,
    AF4,
    AF5,
    AF6,
    AF7,
    AF8,
    AF9,
    AF10,
    AF11,
    AF12,
    AF13,
    AF14,
    AF15,
}

impl AlternateFunction {
    /// The four-bit AFRL/AFRH encoding: `AFn` is `n`.
    pub open spec fn value(self) -> u32 {
        match self {
            AlternateFunction::AF0 => 0,
            AlternateFunction::AF1 => 1,
            AlternateFunction::AF2 => 2,
            AlternateFunction::AF3 => 3,
            AlternateFunction::AF4 => 4,
            AlternateFunction::AF5 => 5,
            AlternateFunction::AF6 => 6,
            AlternateFunction::AF7 => 7,
            AlternateFunction::AF8 => 8,
            AlternateFunction::AF9 => 9,
            AlternateFunction::AF10 => 10,
            AlternateFunction::AF11 => 11,
            AlternateFunction::AF12 => 12,
            AlternateFunction::AF13 => 13,
            AlternateFunction::AF14 => 14,
            AlternateFunction::AF15 => 15,
        }
    }

    pub fn as_u32(self) -> (r: u32)
        ensures
            r == self.value(),
            r == self as u32,
    {
        match self {
            AlternateFunction::AF0 => 0,
            AlternateFunction::AF1 => 1,
            AlternateFunction::AF2 => 2,
            AlternateFunction::AF3 => 3,
            AlternateFunction::AF4 => 4,
            AlternateFunction::AF5 => 5,
            AlternateFunction::AF6 => 6,
            AlternateFunction::AF7 => 7,
            AlternateFunction::AF8 => 8,
            AlternateFunction::AF9 => 9,
            AlternateFunction::AF10 => 10,
            AlternateFunction::AF11 => 11,
            AlternateFunction::AF12 => 12,
            AlternateFunction::AF13 => 13,
            AlternateFunction::AF14 => 14,
            AlternateFunction::AF15 => 15,
        }
    }
}

/// Edges on which a pin interrupt fires.
#[derive(Copy, Clone, Debug, PartialEq, Eq, Structural)]
pub enum InterruptMode {
    RisingEdge,
    FallingEdge,
    EitherEdge,
}

/// Pull resistor of an input pin.
#[derive(Copy, Clone, Debug, PartialEq, Eq, Structural)]
pub enum InputMode {
    PullUp,
    PullDown,
    PullNone,
}

/// The register block of one GPIO port.
#[derive(Copy, Clone, Debug, PartialEq, Eq, Structural)]
pub struct Registers {
    pub moder: u32,
    pub otyper: u32,
    pub ospeedr: u32,
    pub pupdr: u32,
    pub idr: u32,
    pub odr: u32,
    pub bsrr: u32,
    pub lckr: u32,
    pub afrl: u32,
    pub afrh: u32,
}

impl Registers {
    /// A block with every register zero.
    pub fn new() -> (r: Registers)
        ensures
            r == (Registers {
                moder: 0,
                otyper: 0,
                ospeedr: 0,
                pupdr: 0,
                idr: 0,
                odr: 0,
                bsrr: 0,
                lckr: 0,
                afrl: 0,
                afrh: 0,
            }),
    {
        Registers {
            moder: 0,
            otyper: 0,
            ospeedr: 0,
            pupdr: 0,
            idr: 0,
            odr: 0,
            bsrr: 0,
            lckr: 0,
            afrl: 0,
            afrh: 0,
        }
    }
}

/// Names a GPIO pin by its port and its number within the port.
#[derive(Copy, Clone, Debug, PartialEq, Eq, Structural)]
pub struct PinId {
    pub port: PortNum,
    pub pin: usize,
}

/// Address of the register block of `port`.
pub open spec fn port_registers_address(port: PortNum) -> int {
    BASE_ADDRESS + port.value() * SIZE
}

/// Register and bit position of the alternate-function field of `pin`:
/// `(false, 4 * pin)` in AFRL for pins 0 to 7, `(true, 4 * pin - 32)` in AFRH otherwise.
pub open spec fn afr_field(pin: int) -> (bool, int) {
    if pin <= 7 {
        (false, 4 * pin)
    } else {
        (true, 4 * pin - 32)
    }
}

/// A GPIO pin. Its view is a [`PinState`]. Its number must be below 16 where
/// a two- or four-bit field of its port is written, and below 32 where a
/// single bit of a port register is read or written.
pub struct GPIOPin {
    regs: usize,
    pub pin: usize,
    pub port: PortNum,
    client_data: usize,
    client: Option<usize>,
}

/// What a [`GPIOPin`] holds: the address of its port's register block, its
/// number and port, and the client that its interrupts go to, with the value
/// handed to that client.
#[derive(Copy, Clone, Debug, PartialEq, Eq, Structural)]
pub struct PinState {
    pub regs: usize,
    pub pin: usize,
    pub port: PortNum,
    pub client_data: usize,
    pub client: Option<usize>,
}

impl View for GPIOPin {
    type V = PinState;

    closed spec fn view(&self) -> PinState {
        PinState {
            regs: self.regs,
            pin: self.pin,
            port: self.port,
            client_data: self.client_data,
            client: self.client,
        }
    }
}

impl GPIOPin {
    pub fn new(port: PortNum, pin: usize) -> (r: GPIOPin)
        ensures
            r@ == (PinState {
                regs: port_registers_address(port) as usize,
                pin: pin,
                port: port,
                client_data: 0,
                client: None,
            }),
    {
        GPIOPin {
            regs: BASE_ADDRESS + (port.as_u32() as usize) * SIZE,
            pin: pin,
            port: port,
            client_data: 0,
            client: None,
        }
    }

    /// Address of the register block of the pin's port.
    pub fn registers_address(&self) -> (r: usize)
        ensures
            r == self@.regs,
    {
        self.regs
    }

    /// The port and number of the pin.
    pub fn id(&self) -> (r: PinId)
        ensures
            r == (PinId { port: self@.port, pin: self@.pin }),
    {
        PinId { port: self.port, pin: self.pin }
    }

    /// Registers `client` as the receiver of the pin's interrupts.
    pub fn set_client(&mut self, client: usize)
        ensures
            final(self)@ == (PinState { client: Some(client), ..old(self)@ }),
    {
        self.client = Some(client);
    }

    pub fn set_mode(&self, regs: &mut Registers, mode: Mode)
        requires
            self@.pin < 16,
        ensures
            *final(regs) == (Registers {
                moder: with_field(
                    old(regs).moder,
                    (self@.pin * 2 + 1) as u32,
                    (self@.pin * 2) as u32,
                    mode.value(),
                ),
                ..*old(regs)
            }),
    {
        regs.moder.set_bit_range(self.pin * 2 + 1, self.pin * 2, mode.as_u32());
    }

    pub fn set_output_type(&self, regs: &mut Registers, mode: OutputMode)
        requires
            self@.pin < 32,
        ensures
            *final(regs) == (Registers {
                otyper: with_field(old(regs).otyper, self@.pin as u32, self@.pin as u32, mode.value()),
                ..*old(regs)
            }),
    {
        regs.otyper.set_bit_range(self.pin, self.pin, mode.as_u32());
    }

    pub fn set_output_speed(&self, regs: &mut Registers, speed: OutputSpeed)
        requires
            self@.pin < 16,
        ensures
            *final(regs) == (Registers {
                ospeedr: with_field(
                    old(regs).ospeedr,
                    (self@.pin * 2 + 1) as u32,
                    (self@.pin * 2) as u32,
                    speed.value(),
                ),
                ..*old(regs)
            }),
    {
        regs.ospeedr.set_bit_range(self.pin * 2 + 1, self.pin * 2, speed.as_u32());
    }

    pub fn set_pull_mode(&self, regs: &mut Registers, pull_mode: PullUpDownMode)
        requires
            self@.pin < 16,
        ensures
            *final(regs) == (Registers {
                pupdr: with_field(
                    old(regs).pupdr,
                    (self@.pin * 2 + 1) as u32,
                    (self@.pin * 2) as u32,
                    pull_mode.value(),
                ),
                ..*old(regs)
            }),
    {
        regs.pupdr.set_bit_range(self.pin * 2 + 1, self.pin * 2, pull_mode.as_u32());
    }

    /// Writes the four-bit alternate-function field of the pin: in AFRL at
    /// bit `4 * pin` for pins 0 to 7, in AFRH at bit `4 * pin - 32` for the others.
    pub fn set_alternate_function(&self, regs: &mut Registers, function: AlternateFunction)
        requires
            self@.pin < 16,
        ensures
            ({
                let (high, pos) = afr_field(self@.pin as int);
                if high {
                    *final(regs) == (Registers {
                        afrh: with_field(old(regs).afrh, (pos + 3) as u32, pos as u32, function.value()),
                        ..*old(regs)
                    })
                } else {
                    *final(regs) == (Registers {
                        afrl: with_field(old(regs).afrl, (pos + 3) as u32, pos as u32, function.value()),
                        ..*old(regs)
                    })
                }
            }),
    {
        if self.pin <= 7 {
            let pos: usize = self.pin * 4;
            regs.afrl.set_bit_range(pos + 3, pos, function.as_u32());
        } else {
            let pos: usize = self.pin * 4 - 32;
            regs.afrh.set_bit_range(pos + 3, pos, function.as_u32());
        }
    }

    /// Drives the pin high or low: sets its bit of the output data register.
    pub fn set_data(&self, regs: &mut Registers, high: bool)
        requires
            self@.pin < 32,
        ensures
            *final(regs) == (Registers { odr: with_bit(old(regs).odr, self@.pin as u32, high), ..*old(regs) }),
    {
        regs.odr.set_bit(self.pin, high);
    }

    /// The pin's level: its bit of the input data register.
    pub fn get_data(&self, regs: &Registers) -> (r: bool)
        requires
            self@.pin < 32,
        ensures
            r == bit_of(regs.idr, self@.pin as u32),
    {
        regs.idr.bit(self.pin)
    }

    /// The client to notify of an interrupt on the pin, with the value to hand
    /// it; `None` when no client is registered.
    pub fn handle_interrupt(&self) -> (r: Option<(usize, usize)>)
        ensures
            r == (match self@.client {
                Some(client) => Some((client, self@.client_data)),
                None => None,
            }),
    {
        match self.client {
            Some(client) => Some((client, self.client_data)),
            None => None,
        }
    }

    pub fn make_output(&self, regs: &mut Registers)
        requires
            self@.pin < 16,
        ensures
            *final(regs) == (Registers {
                moder: with_field(
                    old(regs).moder,
                    (self@.pin * 2 + 1) as u32,
                    (self@.pin * 2) as u32,
                    Mode::Output.value(),
                ),
                ..*old(regs)
            }),
    {
        self.set_mode(regs, Mode::Output);
    }

    pub fn make_input(&self, regs: &mut Registers)
        requires
            self@.pin < 16,
        ensures
            *final(regs) == (Registers {
                moder: with_field(
                    old(regs).moder,
                    (self@.pin * 2 + 1) as u32,
                    (self@.pin * 2) as u32,
                    Mode::Input.value(),
                ),
                ..*old(regs)
            }),
    {
        self.set_mode(regs, Mode::Input);
    }

    /// Disabling a pin makes it an input.
    pub fn disable(&self, regs: &mut Registers)
        requires
            self@.pin < 16,
        ensures
            *final(regs) == (Registers {
                moder: with_field(
                    old(regs).moder,
                    (self@.pin * 2 + 1) as u32,
                    (self@.pin * 2) as u32,
                    Mode::Input.value(),
                ),
                ..*old(regs)
            }),
    {
        self.set_mode(regs, Mode::Input);
    }

    pub fn set(&self, regs: &mut Registers)
        requires
            self@.pin < 32,
        ensures
            *final(regs) == (Registers { odr: with_bit(old(regs).odr, self@.pin as u32, true), ..*old(regs) }),
    {
        self.set_data(regs, true);
    }

    pub fn clear(&self, regs: &mut Registers)
        requires
            self@.pin < 32,
        ensures
            *final(regs) == (Registers { odr: with_bit(old(regs).odr, self@.pin as u32, false), ..*old(regs) }),
    {
        self.set_data(regs, false);
    }

    /// Drives the pin to the opposite of the level it reads.
    pub fn toggle(&self, regs: &mut Registers)
        requires
            self@.pin < 32,
        ensures
            *final(regs) == (Registers {
                odr: with_bit(old(regs).odr, self@.pin as u32, !bit_of(old(regs).idr, self@.pin as u32)),
                ..*old(regs)
            }),
    {
        let level = self.get_data(regs);
        self.set_data(regs, !level);
    }

    pub fn read(&self, regs: &Registers) -> (r: bool)
        requires
            self@.pin < 32,
        ensures
            r == bit_of(regs.idr, self@.pin as u32),
    {
        self.get_data(regs)
    }

    /// Makes the pin an input with the pull resistor that `input_mode` names.
    pub fn set_input_mode(&self, regs: &mut Registers, input_mode: InputMode)
        requires
            self@.pin < 16,
        ensures
            *final(regs) == (Registers {
                moder: with_field(
                    old(regs).moder,
                    (self@.pin * 2 + 1) as u32,
                    (self@.pin * 2) as u32,
                    Mode::Input.value(),
                ),
                pupdr: with_field(
                    old(regs).pupdr,
                    (self@.pin * 2 + 1) as u32,
                    (self@.pin * 2) as u32,
                    pull_for_input(input_mode).value(),
                ),
                ..*old(regs)
            }),
    {
        let pull_mode: PullUpDownMode = match input_mode {
            InputMode::PullUp => PullUpDownMode::PullUp,
            InputMode::PullDown => PullUpDownMode::PullDown,
            InputMode::PullNone => PullUpDownMode::PullNone,
        };
        self.set_mode(regs, Mode::Input);
        self.set_pull_mode(regs, pull_mode);
    }
    /// Makes the pin an input whose interrupt fires on the edges of `mode`
    /// with `identifier` for its client: binds EXTI line number `pin` to the
    /// pin that the port map has at the pin's position, selects the line's
    /// edges and unmasks it. Only lines 0 to 4 exist.
    pub fn enable_interrupt(
        &mut self,
        identifier: usize,
        mode: InterruptMode,
        regs: &mut Registers,
        exti: &mut Exti,
        exti_regs: &mut exti::Registers,
        syscfg: &mut syscfg::Registers,
        port_map: &PortMap,
    )
        requires
            old(self)@.pin < NUM_LINES,
        ensures
            final(self)@ == (PinState { client_data: identifier, ..old(self)@ }),
            *final(regs) == (Registers {
                moder: with_field(
                    old(regs).moder,
                    (old(self)@.pin * 2 + 1) as u32,
                    (old(self)@.pin * 2) as u32,
                    Mode::Input.value(),
                ),
                ..*old(regs)
            }),
            ({
                let p = old(self)@.pin as int;
                let line = old(exti).lines@[p]@;
                let gpio = port_map@[PortMap::position(old(self)@.port, p)];
                let edges = interrupt_edges(mode);
                &&& forall|j: int| 0 <= j < 5 && j != p ==> #[trigger] final(exti).lines@[j] == old(exti).lines@[j]
                &&& accepts(line.line, gpio) ==> {
                    &&& final(exti).lines@[p]@ == (LineState { gpio: gpio, ..line })
                    &&& *final(syscfg) == with_exti_source(*old(syscfg), line.line as int, gpio->0.port)
                }
                &&& !accepts(line.line, gpio) ==> {
                    &&& final(exti).lines@[p] == old(exti).lines@[p]
                    &&& *final(syscfg) == *old(syscfg)
                }
                &&& *final(exti_regs) == (exti::Registers {
                    imr: with_bit(old(exti_regs).imr, line.line as u32, true),
                    rtsr: with_bit(old(exti_regs).rtsr, line.line as u32, edges.0),
                    ftsr: with_bit(old(exti_regs).ftsr, line.line as u32, edges.1),
                    ..*old(exti_regs)
                })
            }),
    {
        let (raising_edge, falling_edge) = match mode {
            InterruptMode::RisingEdge => (true, false),
            InterruptMode::FallingEdge => (false, true),
            InterruptMode::EitherEdge => (true, true),
        };
        self.set_mode(regs, Mode::Input);
        self.client_data = identifier;
        let gpio = port_map.get_pin(self.port, self.pin);
        exti.index_mut(self.pin).set_client(syscfg, gpio);
        exti.index(self.pin).set_trigger(exti_regs, raising_edge, falling_edge);
        exti.index(self.pin).enable_interrupt(exti_regs, true);
    }

    /// Masks EXTI line number `pin` and clears its edge selection. The line
    /// stays bound to its pin: unbinding with no pin changes nothing.
    pub fn disable_interrupt(&self, exti: &mut Exti, exti_regs: &mut exti::Registers, syscfg: &mut syscfg::Registers)
        requires
            self@.pin < NUM_LINES,
        ensures
            final(exti).lines@ == old(exti).lines@,
            *final(syscfg) == *old(syscfg),
            ({
                let line = old(exti).lines@[self@.pin as int]@;
                *final(exti_regs) == (exti::Registers {
                    imr: with_bit(old(exti_regs).imr, line.line as u32, false),
                    rtsr: with_bit(old(exti_regs).rtsr, line.line as u32, false),
                    ftsr: with_bit(old(exti_regs).ftsr, line.line as u32, false),
                    ..*old(exti_regs)
                })
            }),
    {
        exti.index(self.pin).enable_interrupt(exti_regs, false);
        exti.index(self.pin).set_trigger(exti_regs, false, false);
        exti.index_mut(self.pin).set_client(syscfg, None);
        assert(exti.lines@ =~= old(exti).lines@);
    }
}

/// The edges, rising and falling, on which an interrupt of `mode` fires.
pub open spec fn interrupt_edges(mode: InterruptMode) -> (bool, bool) {
    match mode {
        InterruptMode::RisingEdge => (true, false),
        InterruptMode::FallingEdge => (false, true),
        InterruptMode::EitherEdge => (true, true),
    }
}

/// The pull resistor setting of an input mode.
pub open spec fn pull_for_input(input_mode: InputMode) -> PullUpDownMode {
    match input_mode {
        InputMode::PullUp => PullUpDownMode::PullUp,
        InputMode::PullDown => PullUpDownMode::PullDown,
        InputMode::PullNone => PullUpDownMode::PullNone,
    }
}

/// For each of the 160 (port, pin) positions, the pin that the chip provides
/// there, if any: position `16 * port + pin`.
pub struct PortMap {
    pins: Vec<Option<PinId>>,
}

impl View for PortMap {
    type V = Seq<Option<PinId>>;

    closed spec fn view(&self) -> Seq<Option<PinId>> {
        self.pins@
    }
}

impl PortMap {
    #[verifier::type_invariant]
    closed spec fn has_every_position(self) -> bool {
        self.pins@.len() == PORT_MAP_LEN
    }

    /// The position of pin `pin` of `port`.
    pub open spec fn position(port: PortNum, pin: int) -> int {
        port.value() * 16 + pin
    }

    /// The map of the pins that this chip support provides: only PA0.
    pub fn new() -> (r: PortMap)
        ensures
            r@.len() == PORT_MAP_LEN,
            r@[0] == Some(PinId { port: PortNum::A, pin: 0 }),
            forall|i: int| 0 < i < PORT_MAP_LEN ==> #[trigger] r@[i] is None,
    {
        let mut pins: Vec<Option<PinId>> = Vec::new();
        pins.push(Some(PinId { port: PortNum::A, pin: 0 }));
        while pins.len() < PORT_MAP_LEN
            invariant
                1 <= pins@.len() <= PORT_MAP_LEN,
                pins@[0] == Some(PinId { port: PortNum::A, pin: 0 }),
                forall|i: int| 0 < i < pins@.len() ==> #[trigger] pins@[i] is None,
            decreases PORT_MAP_LEN - pins@.len(),
        {
            pins.push(None);
        }
        PortMap { pins }
    }

    /// The pin at position `16 * port + pin`. Positions past the end of the map
    /// (only reachable with `pin >= 16`) are out of bounds.
    pub fn get_pin(&self, port: PortNum, pin: usize) -> (r: Option<PinId>)
        requires
            PortMap::position(port, pin as int) < PORT_MAP_LEN,
        ensures
            r == self@[PortMap::position(port, pin as int)],
    {
        proof {
            use_type_invariant(self);
        }
        self.pins[port.as_u32() as usize * PINS_PER_PORT + pin]
    }
}

/// A two-bit pin field (MODER, OSPEEDR, PUPDR) written for pin `p` reads back
/// as the written setting, and the field of every other pin is unchanged.
pub proof fn lemma_pin_field_write(v: u32, p: u32, x: u32, q: u32)
    requires
        p < 16,
        q < 16,
        x < 4,
    ensures
        field_of(with_field(v, (p * 2 + 1) as u32, (p * 2) as u32, x), (p * 2 + 1) as u32, (p * 2) as u32)
            == x,
        q != p ==> field_of(
            with_field(v, (p * 2 + 1) as u32, (p * 2) as u32, x),
            (q * 2 + 1) as u32,
            (q * 2) as u32,
        ) == field_of(v, (q * 2 + 1) as u32, (q * 2) as u32),
{
    let msb = (p * 2 + 1) as u32;
    let lsb = (p * 2) as u32;
    lemma_field_read_after_write(v, msb, lsb, x);
    assert(x & low_mask(2) == x) by (bit_vector)
        requires
            x < 4,
    ;
    assert((msb - lsb + 1) as u32 == 2u32);
    if q != p {
        lemma_field_disjoint(v, msb, lsb, x, (q * 2 + 1) as u32, (q * 2) as u32);
    }
}

/// The alternate-function fields of two different pins never overlap: they
/// lie in different registers or in disjoint four-bit ranges, all within 32 bits.
pub proof fn lemma_afr_fields_disjoint(p: int, q: int)
    requires
        0 <= p < 16,
        0 <= q < 16,
        p != q,
    ensures
        afr_field(p).1 + 3 < 32,
        afr_field(p).0 == afr_field(q).0 ==> afr_field(p).1 + 3 < afr_field(q).1 || afr_field(q).1 + 3
            < afr_field(p).1,
{
}

/// An alternate function written for pin `p` reads back from the pin's
/// field, and the field of every other pin is unchanged.
pub proof fn lemma_afr_write(regs: Registers, p: int, f: AlternateFunction, q: int)
    requires
        0 <= p < 16,
        0 <= q < 16,
    ensures
        ({
            let (high, pos) = afr_field(p);
            let after = if high {
                Registers { afrh: with_field(regs.afrh, (pos + 3) as u32, pos as u32, f.value()), ..regs }
            } else {
                Registers { afrl: with_field(regs.afrl, (pos + 3) as u32, pos as u32, f.value()), ..regs }
            };
            let (high_q, pos_q) = afr_field(q);
            let reg = if high_q { after.afrh } else { after.afrl };
            let reg_before = if high_q { regs.afrh } else { regs.afrl };
            &&& q == p ==> field_of(reg, (pos_q + 3) as u32, pos_q as u32) == f.value()
            &&& q != p ==> field_of(reg, (pos_q + 3) as u32, pos_q as u32) == field_of(
                reg_before,
                (pos_q + 3) as u32,
                pos_q as u32,
            )
        }),
{
    let (high, pos) = afr_field(p);
    let v = if high { regs.afrh } else { regs.afrl };
    let x = f.value();
    lemma_field_read_after_write(v, (pos + 3) as u32, pos as u32, x);
    assert(x & low_mask(4) == x) by (bit_vector)
        requires
            x < 16,
    ;
    assert(((pos + 3) as u32 - pos as u32 + 1) as u32 == 4u32);
    if q != p {
        lemma_afr_fields_disjoint(p, q);
        let (high_q, pos_q) = afr_field(q);
        if high_q == high {
            lemma_field_disjoint(v, (pos + 3) as u32, pos as u32, x, (pos_q + 3) as u32, pos_q as u32);
        }
    }
}

/// The ports in the order they are declared: A, B, ..., J.
pub open spec fn port_order() -> Seq<PortNum> {
    seq![
        PortNum::A,
        PortNum::B,
        PortNum::C,
        PortNum::D,
        PortNum::E,
        PortNum::F,
        PortNum::G,
        PortNum::H,
        PortNum::I,
        PortNum::J,
    ]
}

/// A port's number is its place among A to J (A is 0, G is 6, J is 9), every
/// port has its own number, and the register blocks of the ports follow each
/// other `SIZE` bytes apart from `BASE_ADDRESS` in that order.
pub proof fn lemma_port_number_is_position(i: int, p: PortNum)
    requires
        0 <= i < 10,
    ensures
        port_order().len() == 10,
        port_order()[i].value() == i,
        port_order()[p.value() as int] == p,
        port_registers_address(port_order()[i]) == BASE_ADDRESS + i * SIZE,
        i < 9 ==> port_registers_address(port_order()[i + 1]) == port_registers_address(port_order()[i])
            + SIZE,
{
}

/// The modes in the order they are declared.
pub open spec fn mode_order() -> Seq<Mode> {
    seq![Mode::Input, Mode::Output, Mode::AlternateFunction, Mode::Analog]
}

/// The output types in the order they are declared.
pub open spec fn output_mode_order() -> Seq<OutputMode> {
    seq![OutputMode::PushPull, OutputMode::OpenDrain]
}

/// The output speeds in the order they are declared.
pub open spec fn speed_order() -> Seq<OutputSpeed> {
    seq![OutputSpeed::Low, OutputSpeed::Medium, OutputSpeed::High, OutputSpeed::VeryHigh]
}

/// The pull settings in the order they are declared.
pub open spec fn pull_order() -> Seq<PullUpDownMode> {
    seq![PullUpDownMode::PullNone, PullUpDownMode::PullUp, PullUpDownMode::PullDown]
}

/// The alternate functions in the order they are declared: AF0 to AF15.
pub open spec fn alternate_function_order() -> Seq<AlternateFunction> {
    seq![
        AlternateFunction::AF0,
        AlternateFunction::AF1,
        AlternateFunction::AF2,
        AlternateFunction::AF3,
        AlternateFunction::AF4,
        AlternateFunction::AF5,
        AlternateFunction::AF6,
        AlternateFunction::AF7,
        AlternateFunction::AF8,
        AlternateFunction::AF9,
        AlternateFunction::AF10,
        AlternateFunction::AF11,
        AlternateFunction::AF12,
        AlternateFunction::AF13,
        AlternateFunction::AF14,
        AlternateFunction::AF15,
    ]
}

/// The code that a pin setting writes is its place in its declaration: Input,
/// Output, AlternateFunction, Analog are 0 to 3; PushPull and OpenDrain 0 and
/// 1; Low, Medium, High, VeryHigh 0 to 3; PullNone, PullUp, PullDown 0 to 2.
/// Every setting has its own code, and the pin's field reads it back after
/// `set_mode`, `set_output_speed` or `set_pull_mode` (whose contracts write
/// `with_field` of the setting's code into the pin's two bits).
pub proof fn lemma_pin_setting_codes(k: int, v: u32, pin: u32, m: Mode, o: OutputMode, sp: OutputSpeed, pu: PullUpDownMode)
    requires
        pin < 16,
    ensures
        mode_order().len() == 4 && output_mode_order().len() == 2 && speed_order().len() == 4
            && pull_order().len() == 3,
        0 <= k < 4 ==> mode_order()[k].value() == k && speed_order()[k].value() == k,
        0 <= k < 2 ==> output_mode_order()[k].value() == k,
        0 <= k < 3 ==> pull_order()[k].value() == k,
        mode_order()[m.value() as int] == m,
        output_mode_order()[o.value() as int] == o,
        speed_order()[sp.value() as int] == sp,
        pull_order()[pu.value() as int] == pu,
        0 <= k < 4 ==> field_of(
            with_field(v, (pin * 2 + 1) as u32, (pin * 2) as u32, mode_order()[k].value()),
            (pin * 2 + 1) as u32,
            (pin * 2) as u32,
        ) == k,
        0 <= k < 4 ==> field_of(
            with_field(v, (pin * 2 + 1) as u32, (pin * 2) as u32, speed_order()[k].value()),
            (pin * 2 + 1) as u32,
            (pin * 2) as u32,
        ) == k,
        0 <= k < 3 ==> field_of(
            with_field(v, (pin * 2 + 1) as u32, (pin * 2) as u32, pull_order()[k].value()),
            (pin * 2 + 1) as u32,
            (pin * 2) as u32,
        ) == k,
        0 <= k < 2 ==> bit_of(with_field(v, pin, pin, output_mode_order()[k].value()), pin) == (k == 1),
{
    if 0 <= k < 4 {
        lemma_pin_field_write(v, pin, mode_order()[k].value(), pin);
        lemma_pin_field_write(v, pin, speed_order()[k].value(), pin);
    }
    if 0 <= k < 3 {
        lemma_pin_field_write(v, pin, pull_order()[k].value(), pin);
    }
    if 0 <= k < 2 {
        let x = output_mode_order()[k].value();
        lemma_field_read_after_write(v, pin, pin, x);
        lemma_bit_is_one_bit_field(with_field(v, pin, pin, x), pin, true);
        assert(x & low_mask(1) == x) by (bit_vector)
            requires
                x < 2,
        ;
        assert((pin - pin + 1) as u32 == 1u32);
    }
}

/// `AFn` is written as `n`: every alternate function has its own code, its
/// place among AF0 to AF15, and the pin's alternate-function field reads it
/// back after `set_alternate_function`.
pub proof fn lemma_alternate_function_code(n: int, f: AlternateFunction, regs: Registers, p: int)
    requires
        0 <= n < 16,
        0 <= p < 16,
    ensures
        alternate_function_order().len() == 16,
        alternate_function_order()[n].value() == n,
        alternate_function_order()[f.value() as int] == f,
        ({
            let g = alternate_function_order()[n];
            let (high, pos) = afr_field(p);
            let after = if high {
                Registers { afrh: with_field(regs.afrh, (pos + 3) as u32, pos as u32, g.value()), ..regs }
            } else {
                Registers { afrl: with_field(regs.afrl, (pos + 3) as u32, pos as u32, g.value()), ..regs }
            };
            field_of(if high { after.afrh } else { after.afrl }, (pos + 3) as u32, pos as u32) == n
        }),
{
    lemma_afr_write(regs, p, alternate_function_order()[n], p);
}

/// An interrupt fires on a rising edge exactly in the modes `RisingEdge` and
/// `EitherEdge`, and on a falling edge exactly in `FallingEdge` and `EitherEdge`.
pub proof fn lemma_interrupt_edges(mode: InterruptMode)
    ensures
        interrupt_edges(mode).0 <==> (mode == InterruptMode::RisingEdge || mode == InterruptMode::EitherEdge),
        interrupt_edges(mode).1 <==> (mode == InterruptMode::FallingEdge || mode == InterruptMode::EitherEdge),
{
}

/// An input mode sets the pull resistor of the same name: pull-up is code 1,
/// pull-down code 2, none code 0.
pub proof fn lemma_pull_for_input(input_mode: InputMode)
    ensures
        (input_mode == InputMode::PullUp) <==> pull_for_input(input_mode).value() == 1,
        (input_mode == InputMode::PullDown) <==> pull_for_input(input_mode).value() == 2,
        (input_mode == InputMode::PullNone) <==> pull_for_input(input_mode).value() == 0,
{
}

/// Every setting's code is the discriminant the compiler gives it: its place
/// in the enum's declaration (`PortNum::G as u32 == 6`,
/// `AlternateFunction::AF2 as u32 == 2`, `OutputSpeed::Low as u32 == 0`).
pub proof fn lemma_codes_are_discriminants(
    p: PortNum,
    m: Mode,
    o: OutputMode,
    sp: OutputSpeed,
    pu: PullUpDownMode,
    f: AlternateFunction,
)
    ensures
        p.value() == p as u32,
        m.value() == m as u32,
        o.value() == o as u32,
        sp.value() == sp as u32,
        pu.value() == pu as u32,
        f.value() == f as u32,
{
}

} // verus!
