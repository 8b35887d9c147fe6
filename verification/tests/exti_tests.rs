use stm32f4::exti::{ExtiLine, Exti, Registers};
use stm32f4::gpio::{PinId, PortNum};
use stm32f4::syscfg;

#[test]
fn enable_interrupt_sets_the_mask_bit() {
    let line = ExtiLine::new(3);
    let mut regs = Registers::new();
    line.enable_interrupt(&mut regs, true);
    assert_eq!(regs.imr, 0x8);
    line.enable_interrupt(&mut regs, false);
    assert_eq!(regs.imr, 0);
}

#[test]
fn set_trigger_sets_both_edges() {
    let line = ExtiLine::new(2);
    let mut regs = Registers::new();
    line.set_trigger(&mut regs, true, false);
    assert_eq!((regs.rtsr, regs.ftsr), (0x4, 0));
    line.set_trigger(&mut regs, false, true);
    assert_eq!((regs.rtsr, regs.ftsr), (0, 0x4));
}

#[test]
fn has_pending_reads_the_pending_register() {
    let line = ExtiLine::new(1);
    let mut regs = Registers::new();
    assert!(!line.has_pending(&regs));
    regs.pr = 0x2;
    assert!(line.has_pending(&regs));
}

#[test]
fn handle_interrupt_writes_the_line_bit_alone() {
    let line = ExtiLine::new(4);
    let mut regs = Registers::new();
    regs.pr = 0xFF;
    assert_eq!(line.handle_interrupt(&mut regs), None);
    assert_eq!(regs.pr, 0x10);
}

#[test]
fn set_client_routes_the_port() {
    let mut syscfg = syscfg::Registers::new();
    let mut line = ExtiLine::new(2);
    line.set_client(&mut syscfg, Some(PinId { port: PortNum::C, pin: 2 }));
    assert_eq!(syscfg.exticr1, 0x200);
    let mut regs = Registers::new();
    assert_eq!(line.handle_interrupt(&mut regs), Some(PinId { port: PortNum::C, pin: 2 }));

    let mut line = ExtiLine::new(3);
    line.set_client(&mut syscfg, Some(PinId { port: PortNum::D, pin: 3 }));
    assert_eq!(syscfg.exticr1, 0x203);
}

#[test]
fn set_client_register_by_line() {
    let mut syscfg = syscfg::Registers::new();
    ExtiLine::new(5).set_client(&mut syscfg, Some(PinId { port: PortNum::B, pin: 5 }));
    assert_eq!(syscfg.exticr2, 0x10);
    ExtiLine::new(9).set_client(&mut syscfg, Some(PinId { port: PortNum::F, pin: 9 }));
    assert_eq!(syscfg.exticr3, 0x5 << 8);
    ExtiLine::new(12).set_client(&mut syscfg, Some(PinId { port: PortNum::E, pin: 12 }));
    assert_eq!(syscfg.exticr4, 0x40);
    let before = syscfg;
    ExtiLine::new(16).set_client(&mut syscfg, Some(PinId { port: PortNum::E, pin: 16 }));
    assert_eq!(syscfg, before);
}

#[test]
fn set_client_ignores_a_pin_of_another_number_or_none() {
    let mut syscfg = syscfg::Registers::new();
    let mut line = ExtiLine::new(1);
    line.set_client(&mut syscfg, Some(PinId { port: PortNum::B, pin: 2 }));
    line.set_client(&mut syscfg, None);
    assert_eq!(syscfg, syscfg::Registers::new());
    let mut regs = Registers::new();
    assert_eq!(line.handle_interrupt(&mut regs), None);
}

#[test]
fn exti_lines_are_numbered_by_index() {
    let mut exti = Exti::new();
    let mut regs = Registers::new();
    for i in 0..5 {
        assert_eq!(exti.index(i).handle_interrupt(&mut regs), None);
        assert_eq!(regs.pr, 1 << i);
    }
    let mut syscfg = syscfg::Registers::new();
    exti.index_mut(3).set_client(&mut syscfg, Some(PinId { port: PortNum::C, pin: 3 }));
    assert_eq!(exti.index(3).handle_interrupt(&mut regs), Some(PinId { port: PortNum::C, pin: 3 }));
    assert_eq!(exti.index(2).handle_interrupt(&mut regs), None);
}
