# lc3_tm4c

The LC-3 teaching platform on the TI TM4C launchpad, with its logic verified
by Verus.

- `src/` is the verified library: the flash-backed LC-3 memory (`paging`,
  `memory_trait_RAM_flash`, `paging_impl`, `memory_impl`), the flash driver
  arithmetic (`flash`, `peripherals_tm4c::flash`), and the state of the LC-3
  peripherals: GPIO (`generic_gpio`, `peripherals`, `peripherals_generic`,
  `peripherals_tm4c::gpio`), PWM, ADC, timers, clock and DMA.
- `tests/` exercises the library on concrete values, with in-memory flash
  devices and mock pins.
- `app/` is the firmware around it: register access, interrupt handlers and
  the board's pins.

The contracts speak of models: the words a storage region holds, the pins'
states and interrupt flags, the control words of the DMA controller. Register
reads and writes stay in `app/`; the library computes the values they carry.
