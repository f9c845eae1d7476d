//! Verified core of a small bare-metal kernel for a single-board computer:
//! a ring buffer of scan codes, a PS/2 frame decoder, scan-code translation,
//! a text console, and the register arithmetic of the GPIO, UART, mailbox and
//! framebuffer drivers.
pub mod ringbuf;
pub mod mmio;
pub mod gpio;
pub mod keyboard;
pub mod uart;
pub mod gl;
pub mod console;
pub mod reset;
pub mod runtime;
