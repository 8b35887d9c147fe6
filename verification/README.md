# stm32f4

Register-level logic of the STM32F4 chip support and of the STM32F4 Discovery
board, verified with Verus.

- `src/` is the library. Each peripheral register block (GPIO, EXTI, SYSCFG,
  RCC) is a plain struct of `u32` registers; every operation takes the block it
  touches and its contract states, over `helpers::field_of`, `with_field`,
  `bit_of` and `with_bit`, what it leaves in each register. Bit manipulation is
  done by the `bitfield` crate behind four trusted wrappers in `helpers.rs`.
  `chip.rs` and `stm32f1.rs` decide what each pending interrupt does,
  `semihosting.rs` decides which semihosting operation each console request
  turns into, and `board.rs` holds the board's reset-time setup.
- `app/` is the hardware side: volatile reads and writes of the register
  blocks, the semihosting trap, the NVIC, and the reset sequence.
- `tests/` runs the library on concrete register values.
