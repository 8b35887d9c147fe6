//! What the STM32F4 Discovery board sets up at reset.

use vstd::prelude::*;
use crate::gpio::{GPIOPin, PinState, PortNum, port_registers_address};
use crate::helpers::bit_of;
use crate::rcc::{self, AHB1Clock, Clock, enable_clock, with_clock, lemma_enable_clock};

verus! {

/// Turns on the clocks of GPIO ports A and D, the ports of the board's pins.
pub fn enable_gpio_clocks(regs: &mut rcc::Registers)
    ensures
        *final(regs) == with_clock(
            with_clock(*old(regs), Clock::AHB1(AHB1Clock::GPIOA), true),
            Clock::AHB1(AHB1Clock::GPIOD),
            true,
        ),
{
    enable_clock(regs, Clock::AHB1(AHB1Clock::GPIOA), true);
    enable_clock(regs, Clock::AHB1(AHB1Clock::GPIOD), true);
}

/// The pin a fresh [`GPIOPin`] of `port` and `pin` holds.
pub open spec fn fresh_pin(port: PortNum, pin: usize) -> PinState {
    PinState {
        regs: port_registers_address(port) as usize,
        pin: pin,
        port: port,
        client_data: 0,
        client: None,
    }
}

/// The board's GPIO pins: PA0 (the user button), then PD12 to PD15 (the LEDs).
pub fn gpio_pins() -> (r: Vec<GPIOPin>)
    ensures
        r@.len() == 5,
        r@[0]@ == fresh_pin(PortNum::A, 0),
        r@[1]@ == fresh_pin(PortNum::D, 12),
        r@[2]@ == fresh_pin(PortNum::D, 13),
        r@[3]@ == fresh_pin(PortNum::D, 14),
        r@[4]@ == fresh_pin(PortNum::D, 15),
{
    let mut pins: Vec<GPIOPin> = Vec::new();
    pins.push(GPIOPin::new(PortNum::A, 0));
    pins.push(GPIOPin::new(PortNum::D, 12));
    pins.push(GPIOPin::new(PortNum::D, 13));
    pins.push(GPIOPin::new(PortNum::D, 14));
    pins.push(GPIOPin::new(PortNum::D, 15));
    pins
}

/// After the board's clock setup the clocks of ports A and D are on, and the
/// clocks of ports B and C are as they were.
pub proof fn lemma_gpio_clocks_on(regs: rcc::Registers)
    ensures
        ({
            let after = with_clock(
                with_clock(regs, Clock::AHB1(AHB1Clock::GPIOA), true),
                Clock::AHB1(AHB1Clock::GPIOD),
                true,
            );
            &&& bit_of(after.ahb1enr, AHB1Clock::GPIOA.value())
            &&& bit_of(after.ahb1enr, AHB1Clock::GPIOD.value())
            &&& bit_of(after.ahb1enr, AHB1Clock::GPIOB.value()) == bit_of(regs.ahb1enr, AHB1Clock::GPIOB.value())
            &&& bit_of(after.ahb1enr, AHB1Clock::GPIOC.value()) == bit_of(regs.ahb1enr, AHB1Clock::GPIOC.value())
        }),
{
    let mid = with_clock(regs, Clock::AHB1(AHB1Clock::GPIOA), true);
    lemma_enable_clock(regs, AHB1Clock::GPIOA, true, AHB1Clock::GPIOB);
    lemma_enable_clock(regs, AHB1Clock::GPIOA, true, AHB1Clock::GPIOC);
    lemma_enable_clock(mid, AHB1Clock::GPIOD, true, AHB1Clock::GPIOA);
    lemma_enable_clock(mid, AHB1Clock::GPIOD, true, AHB1Clock::GPIOB);
    lemma_enable_clock(mid, AHB1Clock::GPIOD, true, AHB1Clock::GPIOC);
}

/// System call driver number of the console.
pub const CONSOLE_DRIVER_NUM: usize = 0x0000_0001;
/// System call driver number of the LEDs.
pub const LED_DRIVER_NUM: usize = 0x0000_0002;
/// System call driver number of the buttons.
pub const BUTTON_DRIVER_NUM: usize = 0x0000_0003;
/// System call driver number of the GPIO pins.
pub const GPIO_DRIVER_NUM: usize = 0x0000_0004;
/// System call driver number of inter-process communication.
pub const IPC_DRIVER_NUM: usize = 0x0001_0000;

/// The drivers that the board offers to processes.
#[derive(Copy, Clone, Debug, PartialEq, Eq, Structural)]
pub enum Driver {
    Console,
    Gpio,
    Led,
    Button,
    Ipc,
}

/// The driver that a system call with driver number `driver_num` goes to.
pub open spec fn driver_of(driver_num: usize) -> Option<Driver> {
    if driver_num == CONSOLE_DRIVER_NUM {
        Some(Driver::Console)
    } else if driver_num == GPIO_DRIVER_NUM {
        Some(Driver::Gpio)
    } else if driver_num == LED_DRIVER_NUM {
        Some(Driver::Led)
    } else if driver_num == BUTTON_DRIVER_NUM {
        Some(Driver::Button)
    } else if driver_num == IPC_DRIVER_NUM {
        Some(Driver::Ipc)
    } else {
        None
    }
}

/// Chooses the driver for a system call; `None` for a number that the board
/// has no driver for.
pub fn driver_for(driver_num: usize) -> (r: Option<Driver>)
    ensures
        r == driver_of(driver_num),
{
    if driver_num == CONSOLE_DRIVER_NUM {
        Some(Driver::Console)
    } else if driver_num == GPIO_DRIVER_NUM {
        Some(Driver::Gpio)
    } else if driver_num == LED_DRIVER_NUM {
        Some(Driver::Led)
    } else if driver_num == BUTTON_DRIVER_NUM {
        Some(Driver::Button)
    } else if driver_num == IPC_DRIVER_NUM {
        Some(Driver::Ipc)
    } else {
        None
    }
}

/// Each driver is reached by exactly one driver number.
pub proof fn lemma_driver_numbers_distinct(a: usize, b: usize)
    requires
        driver_of(a) is Some,
        driver_of(a) == driver_of(b),
    ensures
        a == b,
{
}

/// Each driver is reached by its own driver number and by no other.
pub proof fn lemma_driver_by_number(n: usize)
    ensures
        (driver_of(n) == Some(Driver::Console)) <==> n == CONSOLE_DRIVER_NUM,
        (driver_of(n) == Some(Driver::Gpio)) <==> n == GPIO_DRIVER_NUM,
        (driver_of(n) == Some(Driver::Led)) <==> n == LED_DRIVER_NUM,
        (driver_of(n) == Some(Driver::Button)) <==> n == BUTTON_DRIVER_NUM,
        (driver_of(n) == Some(Driver::Ipc)) <==> n == IPC_DRIVER_NUM,
{
}

} // verus!
