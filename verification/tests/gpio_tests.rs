use stm32f4::exti::{self, Exti};
use stm32f4::gpio::{
    AlternateFunction, GPIOPin, InputMode, InterruptMode, Mode, OutputMode, OutputSpeed, PinId,
    PortMap, PortNum, PullUpDownMode, Registers,
};
use stm32f4::syscfg;

#[test]
fn register_block_address_follows_the_port() {
    assert_eq!(GPIOPin::new(PortNum::A, 0).registers_address(), 0x4002_0000);
    assert_eq!(GPIOPin::new(PortNum::D, 13).registers_address(), 0x4002_0C00);
    assert_eq!(GPIOPin::new(PortNum::J, 1).registers_address(), 0x4002_2400);
}

#[test]
fn enum_encodings() {
    assert_eq!(PortNum::J.as_u32(), 9);
    assert_eq!(Mode::Analog.as_u32(), 3);
    assert_eq!(OutputMode::OpenDrain.as_u32(), 1);
    assert_eq!(OutputSpeed::High.as_u32(), 2);
    assert_eq!(PullUpDownMode::PullDown.as_u32(), 2);
    assert_eq!(AlternateFunction::AF15.as_u32(), 15);
}

#[test]
fn set_mode_writes_the_two_bit_field() {
    let pin = GPIOPin::new(PortNum::D, 13);
    let mut regs = Registers::new();
    pin.set_mode(&mut regs, Mode::Output);
    assert_eq!(regs.moder, 0x0400_0000);
    pin.set_mode(&mut regs, Mode::Analog);
    assert_eq!(regs.moder, 0x0C00_0000);
    pin.set_mode(&mut regs, Mode::Input);
    assert_eq!(regs.moder, 0);
}

#[test]
fn set_mode_leaves_other_pins_alone() {
    let pin = GPIOPin::new(PortNum::D, 15);
    let mut regs = Registers::new();
    regs.moder = 0x5555_5555;
    pin.set_mode(&mut regs, Mode::AlternateFunction);
    assert_eq!(regs.moder, 0x9555_5555);
    assert_eq!(regs.otyper, 0);
}

#[test]
fn output_type_speed_and_pull() {
    let pin = GPIOPin::new(PortNum::D, 13);
    let mut regs = Registers::new();
    pin.set_output_type(&mut regs, OutputMode::OpenDrain);
    pin.set_output_speed(&mut regs, OutputSpeed::VeryHigh);
    pin.set_pull_mode(&mut regs, PullUpDownMode::PullDown);
    assert_eq!(regs.otyper, 0x2000);
    assert_eq!(regs.ospeedr, 0x0C00_0000);
    assert_eq!(regs.pupdr, 0x0800_0000);
    pin.set_output_type(&mut regs, OutputMode::PushPull);
    assert_eq!(regs.otyper, 0);
}

#[test]
fn alternate_function_low_and_high_registers() {
    let mut regs = Registers::new();
    GPIOPin::new(PortNum::B, 3).set_alternate_function(&mut regs, AlternateFunction::AF5);
    assert_eq!(regs.afrl, 0x5000);
    assert_eq!(regs.afrh, 0);
    GPIOPin::new(PortNum::B, 13).set_alternate_function(&mut regs, AlternateFunction::AF7);
    assert_eq!(regs.afrh, 0x0070_0000);
    assert_eq!(regs.afrl, 0x5000);
    GPIOPin::new(PortNum::B, 7).set_alternate_function(&mut regs, AlternateFunction::AF15);
    assert_eq!(regs.afrl, 0xF000_5000);
    GPIOPin::new(PortNum::B, 8).set_alternate_function(&mut regs, AlternateFunction::AF1);
    assert_eq!(regs.afrh, 0x0070_0001);
}

#[test]
fn data_goes_out_through_odr_and_comes_in_through_idr() {
    let pin = GPIOPin::new(PortNum::D, 12);
    let mut regs = Registers::new();
    pin.set(&mut regs);
    assert_eq!(regs.odr, 0x1000);
    assert!(!pin.read(&regs));
    regs.idr = 0x1000;
    assert!(pin.read(&regs));
    assert!(pin.get_data(&regs));
    pin.clear(&mut regs);
    assert_eq!(regs.odr, 0);
    pin.set_data(&mut regs, true);
    assert_eq!(regs.odr, 0x1000);
}

#[test]
fn toggle_drives_the_opposite_of_the_input_level() {
    let pin = GPIOPin::new(PortNum::D, 13);
    let mut regs = Registers::new();
    regs.idr = 0x2000;
    regs.odr = 0xFFFF;
    pin.toggle(&mut regs);
    assert_eq!(regs.odr, 0xDFFF);
    regs.idr = 0;
    pin.toggle(&mut regs);
    assert_eq!(regs.odr, 0xFFFF);
}

#[test]
fn make_output_input_and_disable() {
    let pin = GPIOPin::new(PortNum::A, 1);
    let mut regs = Registers::new();
    pin.make_output(&mut regs);
    assert_eq!(regs.moder, 0x4);
    pin.make_input(&mut regs);
    assert_eq!(regs.moder, 0);
    pin.make_output(&mut regs);
    pin.disable(&mut regs);
    assert_eq!(regs.moder, 0);
}

#[test]
fn set_input_mode_sets_input_and_pull() {
    let pin = GPIOPin::new(PortNum::A, 2);
    let mut regs = Registers::new();
    regs.moder = 0x30;
    pin.set_input_mode(&mut regs, InputMode::PullUp);
    assert_eq!(regs.moder, 0);
    assert_eq!(regs.pupdr, 0x10);
    pin.set_input_mode(&mut regs, InputMode::PullDown);
    assert_eq!(regs.pupdr, 0x20);
    pin.set_input_mode(&mut regs, InputMode::PullNone);
    assert_eq!(regs.pupdr, 0);
}

#[test]
fn handle_interrupt_needs_a_client() {
    let mut pin = GPIOPin::new(PortNum::A, 0);
    assert_eq!(pin.handle_interrupt(), None);
    pin.set_client(7);
    assert_eq!(pin.handle_interrupt(), Some((7, 0)));
    assert_eq!(pin.id(), PinId { port: PortNum::A, pin: 0 });
}

#[test]
fn port_map_holds_only_pa0() {
    let map = PortMap::new();
    assert_eq!(map.get_pin(PortNum::A, 0), Some(PinId { port: PortNum::A, pin: 0 }));
    assert_eq!(map.get_pin(PortNum::A, 1), None);
    assert_eq!(map.get_pin(PortNum::D, 13), None);
    assert_eq!(map.get_pin(PortNum::J, 15), None);
    assert_eq!(map.get_pin(PortNum::A, 159), None);
}

#[test]
fn enable_interrupt_binds_the_pin_and_arms_its_line() {
    let mut pin = GPIOPin::new(PortNum::A, 0);
    pin.set_client(3);
    let mut regs = Registers::new();
    regs.moder = 0x3;
    let mut exti = Exti::new();
    let mut exti_regs = exti::Registers::new();
    let mut syscfg = syscfg::Registers::new();
    let map = PortMap::new();
    pin.enable_interrupt(42, InterruptMode::EitherEdge, &mut regs, &mut exti, &mut exti_regs, &mut syscfg, &map);
    assert_eq!(regs.moder, 0);
    assert_eq!(exti_regs.imr, 1);
    assert_eq!(exti_regs.rtsr, 1);
    assert_eq!(exti_regs.ftsr, 1);
    assert_eq!(syscfg.exticr1, 0);
    assert_eq!(pin.handle_interrupt(), Some((3, 42)));
    assert_eq!(exti.index(0).handle_interrupt(&mut exti_regs), Some(PinId { port: PortNum::A, pin: 0 }));
    assert_eq!(exti_regs.pr, 1);
}

#[test]
fn enable_interrupt_edges_follow_the_mode() {
    let mut pin = GPIOPin::new(PortNum::B, 4);
    let mut regs = Registers::new();
    let mut exti = Exti::new();
    let mut exti_regs = exti::Registers::new();
    let mut syscfg = syscfg::Registers::new();
    let map = PortMap::new();
    pin.enable_interrupt(1, InterruptMode::FallingEdge, &mut regs, &mut exti, &mut exti_regs, &mut syscfg, &map);
    assert_eq!(exti_regs.rtsr, 0);
    assert_eq!(exti_regs.ftsr, 0x10);
    assert_eq!(exti_regs.imr, 0x10);
    // PB4 is not in the port map: line 4 stays unbound and SYSCFG untouched.
    assert_eq!(exti.index(4).handle_interrupt(&mut exti_regs), None);
    assert_eq!(syscfg.exticr2, 0);
    pin.enable_interrupt(1, InterruptMode::RisingEdge, &mut regs, &mut exti, &mut exti_regs, &mut syscfg, &map);
    assert_eq!(exti_regs.rtsr, 0x10);
    assert_eq!(exti_regs.ftsr, 0);
}

#[test]
fn disable_interrupt_masks_the_line_but_keeps_the_binding() {
    let mut pin = GPIOPin::new(PortNum::A, 0);
    let mut regs = Registers::new();
    let mut exti = Exti::new();
    let mut exti_regs = exti::Registers::new();
    let mut syscfg = syscfg::Registers::new();
    let map = PortMap::new();
    exti_regs.imr = 0xFF;
    pin.enable_interrupt(5, InterruptMode::RisingEdge, &mut regs, &mut exti, &mut exti_regs, &mut syscfg, &map);
    pin.disable_interrupt(&mut exti, &mut exti_regs, &mut syscfg);
    assert_eq!(exti_regs.imr, 0xFE);
    assert_eq!(exti_regs.rtsr, 0);
    assert_eq!(exti_regs.ftsr, 0);
    assert_eq!(exti.index(0).handle_interrupt(&mut exti_regs), Some(PinId { port: PortNum::A, pin: 0 }));
}

#[test]
fn single_bit_accesses_reach_pins_up_to_31() {
    let pin = GPIOPin::new(PortNum::A, 20);
    let mut regs = Registers::new();
    pin.set_output_type(&mut regs, OutputMode::OpenDrain);
    assert_eq!(regs.otyper, 1 << 20);
    pin.set(&mut regs);
    assert_eq!(regs.odr, 1 << 20);
    regs.idr = 1 << 31;
    let top = GPIOPin::new(PortNum::A, 31);
    assert!(top.read(&regs));
    assert!(!pin.get_data(&regs));
    top.toggle(&mut regs);
    assert_eq!(regs.odr, 1 << 20);
    pin.toggle(&mut regs);
    assert_eq!(regs.odr, 1 << 20);
    pin.clear(&mut regs);
    assert_eq!(regs.odr, 0);
}
