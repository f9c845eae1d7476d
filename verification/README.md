# rpi_kernel

The verified core of a small bare-metal kernel for a single-board computer
(BCM2835 peripherals): a PS/2 keyboard driver, a mini-UART console, a
framebuffer text console and a mailbox request for the framebuffer.

- `src/` is verified with Verus. Device drivers there compute register
  accesses (`mmio::MmioOp`) and decisions from the words read; they never
  touch memory-mapped hardware themselves.
  - `ringbuf`: the scan-code ring buffer and its laws.
  - `keyboard::ps2`: the PS/2 frame decoder, with the proof that a frame
    yields exactly its byte when parity and stop bits are right.
  - `keyboard`: scan-code translation (release and extended prefixes, shift,
    caps lock).
  - `console`: the text cursor, line editing and the `reset` command.
  - `gpio`, `uart`, `gl`, `gl::mailbox`, `reset`, `runtime`: register
    arithmetic, start-up copies and memory primitives.
- `app/` holds what touches the hardware: volatile loads and stores,
  barriers, busy waits, interrupt vectors, the driver state, the keymap
  data, and the main loops.
- `tests/` runs the library on concrete inputs.
