//! Peripheral reset, enable, low-power and kernel clock control for the
//! clock-control unit of an STM32H7 device.
//!
//! Every register word of the unit is shared by several peripherals. Each
//! peripheral is controlled through a token that only touches its own bits,
//! and every mutation is a single masked read-modify-write.
//!
//! - `bits`: masked bit and field updates of a word.
//! - `ccu`: the register file, as a model the operations are proved against.
//! - `periph` and `mux`: where each peripheral's bits and each kernel clock
//!   selection field lie, and what each selection code means.
//! - `rec`: peripheral tokens, the registry that issues them, and the setter
//!   of shared multiplexers.
//! - `laws`: properties that relate several operations.

pub mod bits;
pub mod ccu;
pub mod mux;
pub mod periph;
pub mod rec;
pub mod laws;
