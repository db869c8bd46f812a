# axi_drivers

Verified drivers for AMD/Xilinx AXI IP cores (AXI UART Lite, AXI UART16550, AXI DMA) and
the Analog Devices AXI AD9361 interface core.

## Layout

- `src/` is the library, verified with Verus.
  - `mmio.rs`: register blocks as `'static` arrays of `vcell::VolatileCell<u32>`. Every
    access through a mutable handle is appended to a ghost trace of bus operations
    (`BusOp::Read` / `BusOp::Write` with word index and value), so driver contracts state
    exactly which registers are read and written, in which order and with which values.
    Values read from the hardware are unconstrained; the contracts say what the driver does
    with whatever value was read.
  - `bits.rs`: bit and bit-field access on register words, with read-after-write laws.
  - `uartlite`, `uart16550`, `dma`, `ad9361`: register types, register maps and drivers.
- `app/` is ordinary Rust around the library: constructors from base addresses (the only
  `unsafe` code), the `embedded-hal-nb`, `embedded-io` and `embedded-io-async` trait
  implementations, busy-wait loops on hardware status, asynchronous transfers with wakers and
  critical sections, floating point baud error rates and the `thiserror` error types.
- `tests/` runs the drivers against plain memory standing in for the hardware registers.
