# dw1000

A driver for the Decawave DW1000 UWB transceiver, verified with Verus.

- `src/` is the driver library. Every function in it is verified against its
  contract.
  - `ll` is the register-level interface: one marker type per register, field
    accessors with exact bit-level contracts, and SPI transactions whose
    bus calls, register writes and register reads are recorded in ghost
    logs.
  - `hl` is the high-level, typestate-based interface (`Uninitialized`,
    `Ready`, `Sending`, `SingleBufferReceiving`, `Sleeping`). Each operation
    states, over the ghost logs, the register writes it makes, what it read,
    and how what it read decided what it wrote or returned.
  - `configs`, `time`, `mac` and `ranging` hold the configuration values, the
    40-bit time stamps, the IEEE 802.15.4 frames (encoded and decoded by the
    `ieee802154` crate) and double-sided two-way ranging with range bias
    correction.
- `app/` is the glue that cannot be verified: `embedded-hal` adapters for the
  driver's SPI, chip select and delay traits, `serde`/`ssmarshal`
  serialization of ranging messages, and the floating-point estimates of
  reception quality and range bias.
- `tests/` runs the library against a simulated DW1000 register file.
