# auxiliary

Verified core of an I3G4250D gyroscope driver for the STM32F3 Discovery board.

- `src/registers.rs`: register map, data rate and full-scale fields.
- `src/frames.rs`: SPI frames (read/write commands, six-byte output read) and
  little-endian decoding, with their bit-level laws.
- `src/gyro_driver.rs`: the driver as a state machine over SPI transfers,
  specified by `step`, with laws for each operation.
- `src/detection.rs`: WHO_AM_I identification.
- `src/timer.rs`: TIM2 prescaler/auto-reload arithmetic and the one-shot guards.
- `app/`: the firmware around the library: board bring-up, the SPI and
  chip-select plumbing that runs the driver's transfers, the floating-point
  scaling, and the interrupt-driven main loop.
