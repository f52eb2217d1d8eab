# bcm2711-hal

Peripheral support for the Raspberry Pi 4 (BCM2711 SoC), with the logic of
the drivers verified by Verus.

- `src/` is the verified library: time units and their arithmetic, the
  VideoCore mailbox property messages (framing, emitting, parsing), clock
  identifiers, DMA control blocks and the checks made before a transfer,
  cache maintenance operands, the GENET Ethernet descriptor ring bookkeeping
  and PHY link resolution, and the clock dividers and byte handling of the
  UARTs, SPI, I2C, timers and RNG. Register words are read and written
  through the `bitfield` crate.
- `app/` drives the hardware registers (`bcm2711` device crate,
  `cortex-a` barriers, cache maintenance instructions) and implements the
  `embedded-hal` traits on top of the library.
- `tests/` runs the library on concrete values.
