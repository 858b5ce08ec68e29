//! Hardware abstraction for a dual-core wireless microcontroller.
//!
//! The heart of the library is the mailbox in `tl_mbox`: intrusive
//! circular lists over a fixed node arena, the memory manager that hands
//! event buffers back to the radio core with coalesced doorbells, the BLE
//! endpoint, and the single-owner event handle. The peripherals it leans on
//! (`ipcc`, `rcc`, `pwr`, `flash`, `gpio`) are modelled as their register
//! contents in plain values; the code that drives the hardware copies those
//! values to and from the real registers.

pub mod cpu;
pub mod delay;
pub mod flash;
pub mod gpio;
pub mod i2c;
pub mod ipcc;
pub mod macros;
pub mod pwr;
pub mod rcc;
pub mod signature;
pub mod time;
pub mod tl_mbox;
