//! Kernel clock multiplexers: where each selection field lies, which clock
//! each selection code names, and which peripherals read it.
//!
//! Where the hardware documents every code of a field, reading it always
//! names a clock. Where it reserves codes, a reserved code is reported as it
//! stands and never taken for a clock.

use crate::bits::{field_fits, field_mask, field_of, read_field};
use crate::ccu::Ccip;
use crate::periph::Peripheral;
use vstd::prelude::*;

verus! {

/// The place of a selection field: its register word, offset and width.
#[derive(Clone, Copy, Debug, PartialEq, Eq, Structural)]
pub struct Field {
    pub reg: Ccip,
    pub off: u32,
    pub width: u32,
}

/// What a selection field holds: a documented clock, or a reserved code.
#[derive(Clone, Copy, Debug, PartialEq, Eq, Structural)]
pub enum MuxValue {
    Known(ClkSource),
    UnknownRaw(u8),
}

/// The reading of selection code `code`, given the clock it names if any.
pub open spec fn value_of(s: Option<ClkSource>, code: u32) -> MuxValue {
    match s {
        Some(c) => MuxValue::Known(c),
        None => MuxValue::UnknownRaw(code as u8),
    }
}

/// A clock that can feed a kernel clock multiplexer.
#[derive(Clone, Copy, Debug, PartialEq, Eq, Structural)]
pub enum ClkSource {
    RccHclk3,
    Pll1Q,
    Pll2R,
    Per,
    Pll2P,
    Pll3P,
    I2sCkin,
    Apb,
    Pll2Q,
    Pll3Q,
    HsiKer,
    CsiKer,
    Hse,
    RccPclk2,
    Sys,
    Pclk,
    RccPclk1,
    Lse,
    Hsi48,
    Lsi,
    Pll3R,
    RccPclk4,
}

/// A kernel clock multiplexer: a selection field of the clock-control unit.
#[derive(Clone, Copy, Debug, PartialEq, Eq, Structural)]
pub enum KernelMux {
    Fmc,
    Qspi,
    Sdmmc,
    Sai1,
    Sai23,
    Spi123,
    Spi45,
    Dfsdm1,
    Fdcan,
    Swp,
    Usart234578,
    Usart16,
    Rng,
    I2c123,
    Cec,
    Lptim1,
    I2c4,
    Lptim2,
    Lptim345,
    Adc,
    Sai4A,
    Sai4B,
    Spi6,
}

impl KernelMux {
    /// Where the selection field lies.
    pub open spec fn spec_field(self) -> Field {
        match self {
            KernelMux::Fmc => Field { reg: Ccip::D1ccip, off: 0, width: 2 },
            KernelMux::Qspi => Field { reg: Ccip::D1ccip, off: 4, width: 2 },
            KernelMux::Sdmmc => Field { reg: Ccip::D1ccip, off: 16, width: 1 },
            KernelMux::Sai1 => Field { reg: Ccip::D2ccip1, off: 0, width: 3 },
            KernelMux::Sai23 => Field { reg: Ccip::D2ccip1, off: 6, width: 3 },
            KernelMux::Spi123 => Field { reg: Ccip::D2ccip1, off: 12, width: 3 },
            KernelMux::Spi45 => Field { reg: Ccip::D2ccip1, off: 16, width: 3 },
            KernelMux::Dfsdm1 => Field { reg: Ccip::D2ccip1, off: 24, width: 1 },
            KernelMux::Fdcan => Field { reg: Ccip::D2ccip1, off: 28, width: 2 },
            KernelMux::Swp => Field { reg: Ccip::D2ccip1, off: 31, width: 1 },
            KernelMux::Usart234578 => Field { reg: Ccip::D2ccip2, off: 0, width: 3 },
            KernelMux::Usart16 => Field { reg: Ccip::D2ccip2, off: 3, width: 3 },
            KernelMux::Rng => Field { reg: Ccip::D2ccip2, off: 8, width: 2 },
            KernelMux::I2c123 => Field { reg: Ccip::D2ccip2, off: 12, width: 2 },
            KernelMux::Cec => Field { reg: Ccip::D2ccip2, off: 22, width: 2 },
            KernelMux::Lptim1 => Field { reg: Ccip::D2ccip2, off: 28, width: 3 },
            KernelMux::I2c4 => Field { reg: Ccip::D3ccip, off: 8, width: 2 },
            KernelMux::Lptim2 => Field { reg: Ccip::D3ccip, off: 10, width: 3 },
            KernelMux::Lptim345 => Field { reg: Ccip::D3ccip, off: 13, width: 3 },
            KernelMux::Adc => Field { reg: Ccip::D3ccip, off: 16, width: 2 },
            KernelMux::Sai4A => Field { reg: Ccip::D3ccip, off: 21, width: 3 },
            KernelMux::Sai4B => Field { reg: Ccip::D3ccip, off: 24, width: 3 },
            KernelMux::Spi6 => Field { reg: Ccip::D3ccip, off: 28, width: 3 },
        }
    }

    /// Where the selection field lies.
    pub fn field(self) -> (r: Field)
        ensures
            r == self.spec_field(),
            field_fits(r.off, r.width),
    {
        match self {
            KernelMux::Fmc => Field { reg: Ccip::D1ccip, off: 0, width: 2 },
            KernelMux::Qspi => Field { reg: Ccip::D1ccip, off: 4, width: 2 },
            KernelMux::Sdmmc => Field { reg: Ccip::D1ccip, off: 16, width: 1 },
            KernelMux::Sai1 => Field { reg: Ccip::D2ccip1, off: 0, width: 3 },
            KernelMux::Sai23 => Field { reg: Ccip::D2ccip1, off: 6, width: 3 },
            KernelMux::Spi123 => Field { reg: Ccip::D2ccip1, off: 12, width: 3 },
            KernelMux::Spi45 => Field { reg: Ccip::D2ccip1, off: 16, width: 3 },
            KernelMux::Dfsdm1 => Field { reg: Ccip::D2ccip1, off: 24, width: 1 },
            KernelMux::Fdcan => Field { reg: Ccip::D2ccip1, off: 28, width: 2 },
            KernelMux::Swp => Field { reg: Ccip::D2ccip1, off: 31, width: 1 },
            KernelMux::Usart234578 => Field { reg: Ccip::D2ccip2, off: 0, width: 3 },
            KernelMux::Usart16 => Field { reg: Ccip::D2ccip2, off: 3, width: 3 },
            KernelMux::Rng => Field { reg: Ccip::D2ccip2, off: 8, width: 2 },
            KernelMux::I2c123 => Field { reg: Ccip::D2ccip2, off: 12, width: 2 },
            KernelMux::Cec => Field { reg: Ccip::D2ccip2, off: 22, width: 2 },
            KernelMux::Lptim1 => Field { reg: Ccip::D2ccip2, off: 28, width: 3 },
            KernelMux::I2c4 => Field { reg: Ccip::D3ccip, off: 8, width: 2 },
            KernelMux::Lptim2 => Field { reg: Ccip::D3ccip, off: 10, width: 3 },
            KernelMux::Lptim345 => Field { reg: Ccip::D3ccip, off: 13, width: 3 },
            KernelMux::Adc => Field { reg: Ccip::D3ccip, off: 16, width: 2 },
            KernelMux::Sai4A => Field { reg: Ccip::D3ccip, off: 21, width: 3 },
            KernelMux::Sai4B => Field { reg: Ccip::D3ccip, off: 24, width: 3 },
            KernelMux::Spi6 => Field { reg: Ccip::D3ccip, off: 28, width: 3 },
        }
    }

    /// The clock that selection code `code` names, if the hardware documents
    /// that code for this multiplexer.
    pub open spec fn source_at(self, code: u32) -> Option<ClkSource> {
        match self {
            KernelMux::Fmc => {
                match code {
                    0 => Some(ClkSource::RccHclk3),
                    1 => Some(ClkSource::Pll1Q),
                    2 => Some(ClkSource::Pll2R),
                    3 => Some(ClkSource::Per),
                    _ => None,
                }
            },
            KernelMux::Qspi => {
                match code {
                    0 => Some(ClkSource::RccHclk3),
                    1 => Some(ClkSource::Pll1Q),
                    2 => Some(ClkSource::Pll2R),
                    3 => Some(ClkSource::Per),
                    _ => None,
                }
            },
            KernelMux::Sdmmc => {
                match code {
                    0 => Some(ClkSource::Pll1Q),
                    1 => Some(ClkSource::Pll2R),
                    _ => None,
                }
            },
            KernelMux::Sai1 => {
                match code {
                    0 => Some(ClkSource::Pll1Q),
                    1 => Some(ClkSource::Pll2P),
                    2 => Some(ClkSource::Pll3P),
                    3 => Some(ClkSource::I2sCkin),
                    4 => Some(ClkSource::Per),
                    _ => None,
                }
            },
            KernelMux::Sai23 => {
                match code {
                    0 => Some(ClkSource::Pll1Q),
                    1 => Some(ClkSource::Pll2P),
                    2 => Some(ClkSource::Pll3P),
                    3 => Some(ClkSource::I2sCkin),
                    4 => Some(ClkSource::Per),
                    _ => None,
                }
            },
            KernelMux::Spi123 => {
                match code {
                    0 => Some(ClkSource::Pll1Q),
                    1 => Some(ClkSource::Pll2P),
                    2 => Some(ClkSource::Pll3P),
                    3 => Some(ClkSource::I2sCkin),
                    4 => Some(ClkSource::Per),
                    _ => None,
                }
            },
            KernelMux::Spi45 => {
                match code {
                    0 => Some(ClkSource::Apb),
                    1 => Some(ClkSource::Pll2Q),
                    2 => Some(ClkSource::Pll3Q),
                    3 => Some(ClkSource::HsiKer),
                    4 => Some(ClkSource::CsiKer),
                    5 => Some(ClkSource::Hse),
                    _ => None,
                }
            },
            KernelMux::Dfsdm1 => {
                match code {
                    0 => Some(ClkSource::RccPclk2),
                    1 => Some(ClkSource::Sys),
                    _ => None,
                }
            },
            KernelMux::Fdcan => {
                match code {
                    0 => Some(ClkSource::Hse),
                    1 => Some(ClkSource::Pll1Q),
                    2 => Some(ClkSource::Pll2Q),
                    _ => None,
                }
            },
            KernelMux::Swp => {
                match code {
                    0 => Some(ClkSource::Pclk),
                    1 => Some(ClkSource::HsiKer),
                    _ => None,
                }
            },
            KernelMux::Usart234578 => {
                match code {
                    0 => Some(ClkSource::RccPclk1),
                    1 => Some(ClkSource::Pll2Q),
                    2 => Some(ClkSource::Pll3Q),
                    3 => Some(ClkSource::HsiKer),
                    4 => Some(ClkSource::CsiKer),
                    5 => Some(ClkSource::Lse),
                    _ => None,
                }
            },
            KernelMux::Usart16 => {
                match code {
                    0 => Some(ClkSource::RccPclk2),
                    1 => Some(ClkSource::Pll2Q),
                    2 => Some(ClkSource::Pll3Q),
                    3 => Some(ClkSource::HsiKer),
                    4 => Some(ClkSource::CsiKer),
                    5 => Some(ClkSource::Lse),
                    _ => None,
                }
            },
            KernelMux::Rng => {
                match code {
                    0 => Some(ClkSource::Hsi48),
                    1 => Some(ClkSource::Pll1Q),
                    2 => Some(ClkSource::Lse),
                    3 => Some(ClkSource::Lsi),
                    _ => None,
                }
            },
            KernelMux::I2c123 => {
                match code {
                    0 => Some(ClkSource::RccPclk1),
                    1 => Some(ClkSource::Pll3R),
                    2 => Some(ClkSource::HsiKer),
                    3 => Some(ClkSource::CsiKer),
                    _ => None,
                }
            },
            KernelMux::Cec => {
                match code {
                    0 => Some(ClkSource::Lse),
                    1 => Some(ClkSource::Lsi),
                    2 => Some(ClkSource::CsiKer),
                    _ => None,
                }
            },
            KernelMux::Lptim1 => {
                match code {
                    0 => Some(ClkSource::RccPclk1),
                    1 => Some(ClkSource::Pll2P),
                    2 => Some(ClkSource::Pll3R),
                    3 => Some(ClkSource::Lse),
                    4 => Some(ClkSource::Lsi),
                    5 => Some(ClkSource::Per),
                    _ => None,
                }
            },
            KernelMux::I2c4 => {
                match code {
                    0 => Some(ClkSource::RccPclk4),
                    1 => Some(ClkSource::Pll3R),
                    2 => Some(ClkSource::HsiKer),
                    3 => Some(ClkSource::CsiKer),
                    _ => None,
                }
            },
            KernelMux::Lptim2 => {
                match code {
                    0 => Some(ClkSource::RccPclk4),
                    1 => Some(ClkSource::Pll2P),
                    2 => Some(ClkSource::Pll3R),
                    3 => Some(ClkSource::Lse),
                    4 => Some(ClkSource::Lsi),
                    5 => Some(ClkSource::Per),
                    _ => None,
                }
            },
            KernelMux::Lptim345 => {
                match code {
                    0 => Some(ClkSource::RccPclk4),
                    1 => Some(ClkSource::Pll2P),
                    2 => Some(ClkSource::Pll3R),
                    3 => Some(ClkSource::Lse),
                    4 => Some(ClkSource::Lsi),
                    5 => Some(ClkSource::Per),
                    _ => None,
                }
            },
            KernelMux::Adc => {
                match code {
                    0 => Some(ClkSource::Pll2P),
                    1 => Some(ClkSource::Pll3R),
                    2 => Some(ClkSource::Per),
                    _ => None,
                }
            },
            KernelMux::Sai4A => {
                match code {
                    0 => Some(ClkSource::Pll1Q),
                    1 => Some(ClkSource::Pll2P),
                    2 => Some(ClkSource::Pll3P),
                    3 => Some(ClkSource::I2sCkin),
                    4 => Some(ClkSource::Per),
                    _ => None,
                }
            },
            KernelMux::Sai4B => {
                match code {
                    0 => Some(ClkSource::Pll1Q),
                    1 => Some(ClkSource::Pll2P),
                    2 => Some(ClkSource::Pll3P),
                    3 => Some(ClkSource::I2sCkin),
                    4 => Some(ClkSource::Per),
                    _ => None,
                }
            },
            KernelMux::Spi6 => {
                match code {
                    0 => Some(ClkSource::RccPclk4),
                    1 => Some(ClkSource::Pll2Q),
                    2 => Some(ClkSource::Pll3Q),
                    3 => Some(ClkSource::HsiKer),
                    4 => Some(ClkSource::CsiKer),
                    5 => Some(ClkSource::Hse),
                    _ => None,
                }
            },
        }
    }

    /// What selection code `code` stands for: the named clock, or the raw code
    /// itself where the hardware reserves it.
    pub fn decode(self, code: u32) -> (r: MuxValue)
        requires
            code <= field_mask(self.spec_field().width),
        ensures
            r == value_of(self.source_at(code), code),
    {
        match self {
            KernelMux::Fmc => {
                match code {
                    0 => MuxValue::Known(ClkSource::RccHclk3),
                    1 => MuxValue::Known(ClkSource::Pll1Q),
                    2 => MuxValue::Known(ClkSource::Pll2R),
                    3 => MuxValue::Known(ClkSource::Per),
                    _ => MuxValue::UnknownRaw(code as u8),
                }
            },
            KernelMux::Qspi => {
                match code {
                    0 => MuxValue::Known(ClkSource::RccHclk3),
                    1 => MuxValue::Known(ClkSource::Pll1Q),
                    2 => MuxValue::Known(ClkSource::Pll2R),
                    3 => MuxValue::Known(ClkSource::Per),
                    _ => MuxValue::UnknownRaw(code as u8),
                }
            },
            KernelMux::Sdmmc => {
                match code {
                    0 => MuxValue::Known(ClkSource::Pll1Q),
                    1 => MuxValue::Known(ClkSource::Pll2R),
                    _ => MuxValue::UnknownRaw(code as u8),
                }
            },
            KernelMux::Sai1 => {
                match code {
                    0 => MuxValue::Known(ClkSource::Pll1Q),
                    1 => MuxValue::Known(ClkSource::Pll2P),
                    2 => MuxValue::Known(ClkSource::Pll3P),
                    3 => MuxValue::Known(ClkSource::I2sCkin),
                    4 => MuxValue::Known(ClkSource::Per),
                    _ => MuxValue::UnknownRaw(code as u8),
                }
            },
            KernelMux::Sai23 => {
                match code {
                    0 => MuxValue::Known(ClkSource::Pll1Q),
                    1 => MuxValue::Known(ClkSource::Pll2P),
                    2 => MuxValue::Known(ClkSource::Pll3P),
                    3 => MuxValue::Known(ClkSource::I2sCkin),
                    4 => MuxValue::Known(ClkSource::Per),
                    _ => MuxValue::UnknownRaw(code as u8),
                }
            },
            KernelMux::Spi123 => {
                match code {
                    0 => MuxValue::Known(ClkSource::Pll1Q),
                    1 => MuxValue::Known(ClkSource::Pll2P),
                    2 => MuxValue::Known(ClkSource::Pll3P),
                    3 => MuxValue::Known(ClkSource::I2sCkin),
                    4 => MuxValue::Known(ClkSource::Per),
                    _ => MuxValue::UnknownRaw(code as u8),
                }
            },
            KernelMux::Spi45 => {
                match code {
                    0 => MuxValue::Known(ClkSource::Apb),
                    1 => MuxValue::Known(ClkSource::Pll2Q),
                    2 => MuxValue::Known(ClkSource::Pll3Q),
                    3 => MuxValue::Known(ClkSource::HsiKer),
                    4 => MuxValue::Known(ClkSource::CsiKer),
                    5 => MuxValue::Known(ClkSource::Hse),
                    _ => MuxValue::UnknownRaw(code as u8),
                }
            },
            KernelMux::Dfsdm1 => {
                match code {
                    0 => MuxValue::Known(ClkSource::RccPclk2),
                    1 => MuxValue::Known(ClkSource::Sys),
                    _ => MuxValue::UnknownRaw(code as u8),
                }
            },
            KernelMux::Fdcan => {
                match code {
                    0 => MuxValue::Known(ClkSource::Hse),
                    1 => MuxValue::Known(ClkSource::Pll1Q),
                    2 => MuxValue::Known(ClkSource::Pll2Q),
                    _ => MuxValue::UnknownRaw(code as u8),
                }
            },
            KernelMux::Swp => {
                match code {
                    0 => MuxValue::Known(ClkSource::Pclk),
                    1 => MuxValue::Known(ClkSource::HsiKer),
                    _ => MuxValue::UnknownRaw(code as u8),
                }
            },
            KernelMux::Usart234578 => {
                match code {
                    0 => MuxValue::Known(ClkSource::RccPclk1),
                    1 => MuxValue::Known(ClkSource::Pll2Q),
                    2 => MuxValue::Known(ClkSource::Pll3Q),
                    3 => MuxValue::Known(ClkSource::HsiKer),
                    4 => MuxValue::Known(ClkSource::CsiKer),
                    5 => MuxValue::Known(ClkSource::Lse),
                    _ => MuxValue::UnknownRaw(code as u8),
                }
            },
            KernelMux::Usart16 => {
                match code {
                    0 => MuxValue::Known(ClkSource::RccPclk2),
                    1 => MuxValue::Known(ClkSource::Pll2Q),
                    2 => MuxValue::Known(ClkSource::Pll3Q),
                    3 => MuxValue::Known(ClkSource::HsiKer),
                    4 => MuxValue::Known(ClkSource::CsiKer),
                    5 => MuxValue::Known(ClkSource::Lse),
                    _ => MuxValue::UnknownRaw(code as u8),
                }
            },
            KernelMux::Rng => {
                match code {
                    0 => MuxValue::Known(ClkSource::Hsi48),
                    1 => MuxValue::Known(ClkSource::Pll1Q),
                    2 => MuxValue::Known(ClkSource::Lse),
                    3 => MuxValue::Known(ClkSource::Lsi),
                    _ => MuxValue::UnknownRaw(code as u8),
                }
            },
            KernelMux::I2c123 => {
                match code {
                    0 => MuxValue::Known(ClkSource::RccPclk1),
                    1 => MuxValue::Known(ClkSource::Pll3R),
                    2 => MuxValue::Known(ClkSource::HsiKer),
                    3 => MuxValue::Known(ClkSource::CsiKer),
                    _ => MuxValue::UnknownRaw(code as u8),
                }
            },
            KernelMux::Cec => {
                match code {
                    0 => MuxValue::Known(ClkSource::Lse),
                    1 => MuxValue::Known(ClkSource::Lsi),
                    2 => MuxValue::Known(ClkSource::CsiKer),
                    _ => MuxValue::UnknownRaw(code as u8),
                }
            },
            KernelMux::Lptim1 => {
                match code {
                    0 => MuxValue::Known(ClkSource::RccPclk1),
                    1 => MuxValue::Known(ClkSource::Pll2P),
                    2 => MuxValue::Known(ClkSource::Pll3R),
                    3 => MuxValue::Known(ClkSource::Lse),
                    4 => MuxValue::Known(ClkSource::Lsi),
                    5 => MuxValue::Known(ClkSource::Per),
                    _ => MuxValue::UnknownRaw(code as u8),
                }
            },
            KernelMux::I2c4 => {
                match code {
                    0 => MuxValue::Known(ClkSource::RccPclk4),
                    1 => MuxValue::Known(ClkSource::Pll3R),
                    2 => MuxValue::Known(ClkSource::HsiKer),
                    3 => MuxValue::Known(ClkSource::CsiKer),
                    _ => MuxValue::UnknownRaw(code as u8),
                }
            },
            KernelMux::Lptim2 => {
                match code {
                    0 => MuxValue::Known(ClkSource::RccPclk4),
                    1 => MuxValue::Known(ClkSource::Pll2P),
                    2 => MuxValue::Known(ClkSource::Pll3R),
                    3 => MuxValue::Known(ClkSource::Lse),
                    4 => MuxValue::Known(ClkSource::Lsi),
                    5 => MuxValue::Known(ClkSource::Per),
                    _ => MuxValue::UnknownRaw(code as u8),
                }
            },
            KernelMux::Lptim345 => {
                match code {
                    0 => MuxValue::Known(ClkSource::RccPclk4),
                    1 => MuxValue::Known(ClkSource::Pll2P),
                    2 => MuxValue::Known(ClkSource::Pll3R),
                    3 => MuxValue::Known(ClkSource::Lse),
                    4 => MuxValue::Known(ClkSource::Lsi),
                    5 => MuxValue::Known(ClkSource::Per),
                    _ => MuxValue::UnknownRaw(code as u8),
                }
            },
            KernelMux::Adc => {
                match code {
                    0 => MuxValue::Known(ClkSource::Pll2P),
                    1 => MuxValue::Known(ClkSource::Pll3R),
                    2 => MuxValue::Known(ClkSource::Per),
                    _ => MuxValue::UnknownRaw(code as u8),
                }
            },
            KernelMux::Sai4A => {
                match code {
                    0 => MuxValue::Known(ClkSource::Pll1Q),
                    1 => MuxValue::Known(ClkSource::Pll2P),
                    2 => MuxValue::Known(ClkSource::Pll3P),
                    3 => MuxValue::Known(ClkSource::I2sCkin),
                    4 => MuxValue::Known(ClkSource::Per),
                    _ => MuxValue::UnknownRaw(code as u8),
                }
            },
            KernelMux::Sai4B => {
                match code {
                    0 => MuxValue::Known(ClkSource::Pll1Q),
                    1 => MuxValue::Known(ClkSource::Pll2P),
                    2 => MuxValue::Known(ClkSource::Pll3P),
                    3 => MuxValue::Known(ClkSource::I2sCkin),
                    4 => MuxValue::Known(ClkSource::Per),
                    _ => MuxValue::UnknownRaw(code as u8),
                }
            },
            KernelMux::Spi6 => {
                match code {
                    0 => MuxValue::Known(ClkSource::RccPclk4),
                    1 => MuxValue::Known(ClkSource::Pll2Q),
                    2 => MuxValue::Known(ClkSource::Pll3Q),
                    3 => MuxValue::Known(ClkSource::HsiKer),
                    4 => MuxValue::Known(ClkSource::CsiKer),
                    5 => MuxValue::Known(ClkSource::Hse),
                    _ => MuxValue::UnknownRaw(code as u8),
                }
            },
        }
    }

    /// The peripheral that owns this multiplexer alone, or `None` for a
    /// multiplexer shared by a group of peripherals.
    pub open spec fn owner(self) -> Option<Peripheral> {
        match self {
            KernelMux::Fmc => Some(Peripheral::Fmc),
            KernelMux::Qspi => Some(Peripheral::Qspi),
            KernelMux::Sdmmc => None,
            KernelMux::Sai1 => Some(Peripheral::Sai1),
            KernelMux::Sai23 => None,
            KernelMux::Spi123 => None,
            KernelMux::Spi45 => None,
            KernelMux::Dfsdm1 => Some(Peripheral::Dfsdm1),
            KernelMux::Fdcan => Some(Peripheral::Fdcan),
            KernelMux::Swp => Some(Peripheral::Swp),
            KernelMux::Usart234578 => None,
            KernelMux::Usart16 => None,
            KernelMux::Rng => Some(Peripheral::Rng),
            KernelMux::I2c123 => None,
            KernelMux::Cec => Some(Peripheral::Cec),
            KernelMux::Lptim1 => Some(Peripheral::Lptim1),
            KernelMux::I2c4 => Some(Peripheral::I2c4),
            KernelMux::Lptim2 => Some(Peripheral::Lptim2),
            KernelMux::Lptim345 => None,
            KernelMux::Adc => None,
            KernelMux::Sai4A => Some(Peripheral::Sai4),
            KernelMux::Sai4B => Some(Peripheral::Sai4),
            KernelMux::Spi6 => Some(Peripheral::Spi6),
        }
    }

    /// The peripheral that owns this multiplexer alone, or `None` for a
    /// multiplexer shared by a group of peripherals.
    pub fn owner_of(self) -> (r: Option<Peripheral>)
        ensures
            r == self.owner(),
    {
        match self {
            KernelMux::Fmc => Some(Peripheral::Fmc),
            KernelMux::Qspi => Some(Peripheral::Qspi),
            KernelMux::Sdmmc => None,
            KernelMux::Sai1 => Some(Peripheral::Sai1),
            KernelMux::Sai23 => None,
            KernelMux::Spi123 => None,
            KernelMux::Spi45 => None,
            KernelMux::Dfsdm1 => Some(Peripheral::Dfsdm1),
            KernelMux::Fdcan => Some(Peripheral::Fdcan),
            KernelMux::Swp => Some(Peripheral::Swp),
            KernelMux::Usart234578 => None,
            KernelMux::Usart16 => None,
            KernelMux::Rng => Some(Peripheral::Rng),
            KernelMux::I2c123 => None,
            KernelMux::Cec => Some(Peripheral::Cec),
            KernelMux::Lptim1 => Some(Peripheral::Lptim1),
            KernelMux::I2c4 => Some(Peripheral::I2c4),
            KernelMux::Lptim2 => Some(Peripheral::Lptim2),
            KernelMux::Lptim345 => None,
            KernelMux::Adc => None,
            KernelMux::Sai4A => Some(Peripheral::Sai4),
            KernelMux::Sai4B => Some(Peripheral::Sai4),
            KernelMux::Spi6 => Some(Peripheral::Spi6),
        }
    }

}

impl KernelMux {
    /// Whether some code of this multiplexer's field selects clock `s`.
    pub open spec fn accepts(self, s: ClkSource) -> bool {
        ||| self.source_at(0) == Some(s)
        ||| self.source_at(1) == Some(s)
        ||| self.source_at(2) == Some(s)
        ||| self.source_at(3) == Some(s)
        ||| self.source_at(4) == Some(s)
        ||| self.source_at(5) == Some(s)
        ||| self.source_at(6) == Some(s)
        ||| self.source_at(7) == Some(s)
    }

    /// Every documented code fits in the multiplexer's field.
    pub proof fn lemma_codes_fit(self)
        ensures
            forall|c: u32| #[trigger] self.source_at(c) is Some ==> c <= field_mask(self.spec_field().width),
    {
        assert(field_mask(1) == 1 && field_mask(2) == 3 && field_mask(3) == 7) by (bit_vector);
    }

    /// What register word `w` holds in this multiplexer's field.
    pub fn read_word(self, w: u32) -> (r: MuxValue)
        ensures
            ({
                let f = self.spec_field();
                let code = field_of(w, f.off, f.width);
                r == value_of(self.source_at(code), code)
            }),
    {
        let f = self.field();
        self.decode(read_field(w, f.off, f.width))
    }

    /// Whether every code of this multiplexer's field names a clock.
    pub open spec fn fully_specified(self) -> bool {
        forall|c: u32| c <= field_mask(self.spec_field().width) ==> #[trigger] self.source_at(c) is Some
    }

    /// The code that selects clock `s` on this multiplexer, or `None` where
    /// no code selects it.
    pub fn encode(self, s: ClkSource) -> (r: Option<u32>)
        ensures
            r is Some <==> self.accepts(s),
            r matches Some(c) ==> c <= field_mask(self.spec_field().width) && self.source_at(c) == Some(s),
    {
        let f = self.field();
        let width = f.width;
        assert(field_mask(width) < 8 && (1u32 << width) >= 1u32) by (bit_vector)
            requires
                1 <= width <= 3,
        ;
        let mask: u32 = (1u32 << width) - 1u32;
        let mut c: u32 = 0;
        while c <= mask
            invariant
                f == self.spec_field(),
                mask == field_mask(f.width),
                mask < 8,
                c <= mask + 1,
                forall|d: u32| d < c ==> #[trigger] self.source_at(d) != Some(s),
            decreases mask + 1 - c,
        {
            if self.decode(c) == MuxValue::Known(s) {
                return Some(c);
            }
            c = c + 1;
        }
        proof {
            self.lemma_codes_fit();
        }
        None
    }
}

/// The multiplexers whose every selection code the hardware documents always
/// read as a named clock.
pub proof fn lemma_documented_fields_always_known()
    ensures
        KernelMux::Fmc.fully_specified(),
        KernelMux::Qspi.fully_specified(),
        KernelMux::Sdmmc.fully_specified(),
        KernelMux::Dfsdm1.fully_specified(),
        KernelMux::Swp.fully_specified(),
        KernelMux::Rng.fully_specified(),
        KernelMux::I2c123.fully_specified(),
        KernelMux::I2c4.fully_specified(),
{
    assert(field_mask(1) == 1 && field_mask(2) == 3) by (bit_vector);
}

} // verus!
