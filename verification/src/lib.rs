//! Verified core of a bare-metal boot flow for a RISC-V microcontroller:
//! the self-checksumming boot-image format built by the offline packaging
//! tool, the byte layout of the GPIO peripheral register file, the
//! pin-ownership ("pad") layer that hands out single-pin capabilities, and
//! the arithmetic of the reset trampoline (zeroing uninitialized storage,
//! placing the stack).
//!
//! Hardware access itself (volatile loads and stores at fixed physical
//! addresses) and file I/O live outside this crate; everything here is
//! plain data and arithmetic with proved contracts.

pub mod gpio;
pub mod pbp;
pub mod soc;
pub mod trampoline;
