use stm32f4::board::{driver_for, enable_gpio_clocks, gpio_pins, Driver};
use stm32f4::chip::service_interrupt;
use stm32f4::exti::{self, Exti};
use stm32f4::gpio::{PinId, PortNum};
use stm32f4::io::std_out_init;
use stm32f4::nvic::{EXTI0, EXTI4};
use stm32f4::rcc::{self, enable_clock, AHB1Clock, Clock};
use stm32f4::semihosting::{Channel, OpenMode, SysOp, Transmission, WriteError, WriteRequest};
use stm32f4::stm32f1::{self, InterruptSource};
use stm32f4::syscfg;

#[test]
fn enable_clock_sets_the_ahb1_bit() {
    let mut regs = rcc::Registers::new();
    enable_clock(&mut regs, Clock::AHB1(AHB1Clock::GPIOD), true);
    assert_eq!(regs.ahb1enr, 0x8);
    enable_clock(&mut regs, Clock::AHB1(AHB1Clock::GPIOB), true);
    assert_eq!(regs.ahb1enr, 0xA);
    enable_clock(&mut regs, Clock::AHB1(AHB1Clock::GPIOD), false);
    assert_eq!(regs.ahb1enr, 0x2);
}

#[test]
fn enable_clock_ignores_other_buses() {
    let mut regs = rcc::Registers::new();
    regs.ahb1enr = 0x5;
    let before = regs;
    enable_clock(&mut regs, Clock::AHB2, true);
    enable_clock(&mut regs, Clock::APB1, false);
    enable_clock(&mut regs, Clock::AHB3LP, true);
    assert_eq!(regs, before);
}

#[test]
fn board_turns_on_ports_a_and_d() {
    let mut regs = rcc::Registers::new();
    regs.ahb1enr = 0x4;
    enable_gpio_clocks(&mut regs);
    assert_eq!(regs.ahb1enr, 0xD);
}

#[test]
fn board_pins() {
    let pins = gpio_pins();
    assert_eq!(pins.len(), 5);
    assert_eq!(pins[0].id(), PinId { port: PortNum::A, pin: 0 });
    assert_eq!(pins[1].id(), PinId { port: PortNum::D, pin: 12 });
    assert_eq!(pins[4].id(), PinId { port: PortNum::D, pin: 15 });
    assert_eq!(pins[2].registers_address(), 0x4002_0C00);
    assert_eq!(pins[0].handle_interrupt(), None);
}

#[test]
fn stm32f4_dispatches_exti_interrupts_to_their_lines() {
    let mut exti = Exti::new();
    let mut syscfg = syscfg::Registers::new();
    exti.index_mut(0).set_client(&mut syscfg, Some(PinId { port: PortNum::A, pin: 0 }));
    let mut regs = exti::Registers::new();
    assert_eq!(service_interrupt(EXTI0, &exti, &mut regs), Ok(Some(PinId { port: PortNum::A, pin: 0 })));
    assert_eq!(regs.pr, 1);
    assert_eq!(service_interrupt(7, &exti, &mut regs), Ok(None));
    assert_eq!(regs.pr, 2);
    assert_eq!(service_interrupt(EXTI4, &exti, &mut regs), Ok(None));
    assert_eq!(regs.pr, 0x10);
}

#[test]
fn stm32f4_reports_unhandled_interrupts() {
    let exti = Exti::new();
    let mut regs = exti::Registers::new();
    regs.pr = 0x3;
    assert_eq!(service_interrupt(5, &exti, &mut regs), Err(5));
    assert_eq!(service_interrupt(11, &exti, &mut regs), Err(11));
    assert_eq!(regs.pr, 0x3);
}

#[test]
fn stm32f1_dispatch() {
    assert_eq!(stm32f1::service_interrupt(28), Ok(InterruptSource::Timer2));
    assert_eq!(stm32f1::service_interrupt(37), Ok(InterruptSource::Usart1));
    assert_eq!(stm32f1::service_interrupt(6), Err(6));
}

#[test]
fn console_opens_only_under_a_debugger() {
    assert_eq!(std_out_init(1), Some((":tt", OpenMode::Write)));
    assert_eq!(std_out_init(0x0003_0001), Some((":tt", OpenMode::Write)));
    assert_eq!(std_out_init(0xFFFF_FFFE), None);
    assert_eq!(std_out_init(0), None);
}

#[test]
fn semihosting_numbers() {
    assert_eq!(SysOp::SysOpen.as_u32(), 1);
    assert_eq!(SysOp::SysClose.as_u32(), 2);
    assert_eq!(SysOp::SysWrite.as_u32(), 5);
    assert_eq!(OpenMode::Read.as_u32(), 0);
    assert_eq!(OpenMode::Write.as_u32(), 4);
    assert_eq!(OpenMode::AppendUpdateBinary.as_u32(), 11);
}

#[test]
fn channel_writes_only_when_open() {
    let mut ch = Channel::new();
    assert_eq!(ch.fd(), -1);
    assert_eq!(ch.write_str(5), Err(WriteError));
    assert_eq!(ch.close(), None);
    assert_eq!(ch.opened(3), 3);
    assert_eq!(ch.write_str(5), Ok(WriteRequest { fd: 3, len: 5 }));
    assert_eq!(ch.close(), Some(3));
    assert_eq!(ch.fd(), -1);
    assert_eq!(ch.close(), None);
    assert_eq!(ch.write_str(1), Err(WriteError));
}

#[test]
fn channel_open_closes_first() {
    let mut ch = Channel::new();
    ch.opened(7);
    assert_eq!(ch.open(3, OpenMode::Write), (Some(7), 4, 3));
    assert_eq!(ch.fd(), -1);
    assert_eq!(ch.open(3, OpenMode::Append), (None, 8, 3));
    ch.opened(-1);
    assert_eq!(ch.write_str(2), Err(WriteError));
}

#[test]
fn channel_transmit() {
    let mut ch = Channel::new();
    assert_eq!(ch.transmit(4), Transmission { write: None, notify: None });
    ch.set_client(9);
    assert_eq!(ch.transmit(4), Transmission { write: None, notify: Some(9) });
    ch.opened(2);
    assert_eq!(ch.transmit(4), Transmission { write: Some(WriteRequest { fd: 2, len: 4 }), notify: Some(9) });
    assert_eq!(ch.transmit(0), Transmission { write: None, notify: None });
}

#[test]
fn board_drivers_by_number() {
    assert_eq!(driver_for(1), Some(Driver::Console));
    assert_eq!(driver_for(2), Some(Driver::Led));
    assert_eq!(driver_for(3), Some(Driver::Button));
    assert_eq!(driver_for(4), Some(Driver::Gpio));
    assert_eq!(driver_for(0x10000), Some(Driver::Ipc));
    assert_eq!(driver_for(0), None);
    assert_eq!(driver_for(5), None);
}
