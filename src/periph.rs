//! The peripherals of the clock-control unit and where their bits lie.
//!
//! A peripheral's enable, reset and low-power bits share one index, in the
//! enable, reset and low-power words of its bus. A peripheral in the
//! autonomous domain also has a bit in the autonomous-mode word.

use crate::ccu::Bus;
use crate::mux::KernelMux;
use vstd::prelude::*;

verus! {

/// Where a peripheral's bits lie.
#[derive(Clone, Copy, Debug, PartialEq, Eq, Structural)]
pub struct PeripheralDesc {
    /// The bus whose enable, reset and low-power words hold its bits.
    pub bus: Bus,
    /// The index of its bit in each of those words.
    pub bit: u32,
    /// The index of its bit in the autonomous-mode word, if it has one.
    pub amen: Option<u32>,
    /// The multiplexer it shares with other peripherals, if any.
    pub group: Option<KernelMux>,
}

/// A peripheral whose clock is controlled by the clock-control unit.
#[derive(Clone, Copy, Debug, PartialEq, Eq, Structural)]
pub enum Peripheral {
    Eth1Mac,
    Dma2,
    Dma1,
    Adc12,
    Hash,
    Crypt,
    Rng,
    Sdmmc2,
    Sdmmc1,
    Qspi,
    Fmc,
    Jpgdec,
    Dma2d,
    Mdma,
    Bdma,
    Crc,
    Adc3,
    Gpioa,
    Gpiob,
    Gpioc,
    Gpiod,
    Gpioe,
    Gpiof,
    Gpiog,
    Gpioh,
    Gpioi,
    Gpioj,
    Gpiok,
    Dac12,
    I2c1,
    I2c2,
    I2c3,
    Cec,
    Lptim1,
    Spi2,
    Spi3,
    Tim2,
    Tim3,
    Tim4,
    Tim5,
    Tim6,
    Tim7,
    Tim12,
    Tim13,
    Tim14,
    Usart2,
    Usart3,
    Uart4,
    Uart5,
    Uart7,
    Uart8,
    Fdcan,
    Swp,
    Crs,
    Mdios,
    Opamp,
    Hrtim,
    Dfsdm1,
    Sai1,
    Sai2,
    Sai3,
    Spi1,
    Spi4,
    Spi5,
    Tim1,
    Tim8,
    Tim15,
    Tim16,
    Tim17,
    Usart1,
    Usart6,
    Ltdc,
    Vref,
    Comp12,
    Lptim2,
    Lptim3,
    Lptim4,
    Lptim5,
    I2c4,
    Spi6,
    Sai4,
}

impl Peripheral {
    /// Where this peripheral's bits lie and which shared multiplexer it reads.
    pub open spec fn spec_desc(self) -> PeripheralDesc {
        match self {
            Peripheral::Eth1Mac => PeripheralDesc { bus: Bus::Ahb1, bit: 15, amen: None, group: None },
            Peripheral::Dma2 => PeripheralDesc { bus: Bus::Ahb1, bit: 1, amen: None, group: None },
            Peripheral::Dma1 => PeripheralDesc { bus: Bus::Ahb1, bit: 0, amen: None, group: None },
            Peripheral::Adc12 => PeripheralDesc { bus: Bus::Ahb1, bit: 5, amen: None, group: Some(KernelMux::Adc) },
            Peripheral::Hash => PeripheralDesc { bus: Bus::Ahb2, bit: 5, amen: None, group: None },
            Peripheral::Crypt => PeripheralDesc { bus: Bus::Ahb2, bit: 4, amen: None, group: None },
            Peripheral::Rng => PeripheralDesc { bus: Bus::Ahb2, bit: 6, amen: None, group: None },
            Peripheral::Sdmmc2 => PeripheralDesc { bus: Bus::Ahb2, bit: 9, amen: None, group: Some(KernelMux::Sdmmc) },
            Peripheral::Sdmmc1 => PeripheralDesc { bus: Bus::Ahb3, bit: 16, amen: None, group: Some(KernelMux::Sdmmc) },
            Peripheral::Qspi => PeripheralDesc { bus: Bus::Ahb3, bit: 14, amen: None, group: None },
            Peripheral::Fmc => PeripheralDesc { bus: Bus::Ahb3, bit: 12, amen: None, group: None },
            Peripheral::Jpgdec => PeripheralDesc { bus: Bus::Ahb3, bit: 5, amen: None, group: None },
            Peripheral::Dma2d => PeripheralDesc { bus: Bus::Ahb3, bit: 4, amen: None, group: None },
            Peripheral::Mdma => PeripheralDesc { bus: Bus::Ahb3, bit: 0, amen: None, group: None },
            Peripheral::Bdma => PeripheralDesc { bus: Bus::Ahb4, bit: 21, amen: Some(0), group: None },
            Peripheral::Crc => PeripheralDesc { bus: Bus::Ahb4, bit: 19, amen: Some(19), group: None },
            Peripheral::Adc3 => PeripheralDesc { bus: Bus::Ahb4, bit: 24, amen: Some(24), group: Some(KernelMux::Adc) },
            Peripheral::Gpioa => PeripheralDesc { bus: Bus::Ahb4, bit: 0, amen: None, group: None },
            Peripheral::Gpiob => PeripheralDesc { bus: Bus::Ahb4, bit: 1, amen: None, group: None },
            Peripheral::Gpioc => PeripheralDesc { bus: Bus::Ahb4, bit: 2, amen: None, group: None },
            Peripheral::Gpiod => PeripheralDesc { bus: Bus::Ahb4, bit: 3, amen: None, group: None },
            Peripheral::Gpioe => PeripheralDesc { bus: Bus::Ahb4, bit: 4, amen: None, group: None },
            Peripheral::Gpiof => PeripheralDesc { bus: Bus::Ahb4, bit: 5, amen: None, group: None },
            Peripheral::Gpiog => PeripheralDesc { bus: Bus::Ahb4, bit: 6, amen: None, group: None },
            Peripheral::Gpioh => PeripheralDesc { bus: Bus::Ahb4, bit: 7, amen: None, group: None },
            Peripheral::Gpioi => PeripheralDesc { bus: Bus::Ahb4, bit: 8, amen: None, group: None },
            Peripheral::Gpioj => PeripheralDesc { bus: Bus::Ahb4, bit: 9, amen: None, group: None },
            Peripheral::Gpiok => PeripheralDesc { bus: Bus::Ahb4, bit: 10, amen: None, group: None },
            Peripheral::Dac12 => PeripheralDesc { bus: Bus::Apb1l, bit: 29, amen: None, group: None },
            Peripheral::I2c1 => PeripheralDesc { bus: Bus::Apb1l, bit: 21, amen: None, group: Some(KernelMux::I2c123) },
            Peripheral::I2c2 => PeripheralDesc { bus: Bus::Apb1l, bit: 22, amen: None, group: Some(KernelMux::I2c123) },
            Peripheral::I2c3 => PeripheralDesc { bus: Bus::Apb1l, bit: 23, amen: None, group: Some(KernelMux::I2c123) },
            Peripheral::Cec => PeripheralDesc { bus: Bus::Apb1l, bit: 27, amen: None, group: None },
            Peripheral::Lptim1 => PeripheralDesc { bus: Bus::Apb1l, bit: 9, amen: None, group: None },
            Peripheral::Spi2 => PeripheralDesc { bus: Bus::Apb1l, bit: 14, amen: None, group: Some(KernelMux::Spi123) },
            Peripheral::Spi3 => PeripheralDesc { bus: Bus::Apb1l, bit: 15, amen: None, group: Some(KernelMux::Spi123) },
            Peripheral::Tim2 => PeripheralDesc { bus: Bus::Apb1l, bit: 0, amen: None, group: None },
            Peripheral::Tim3 => PeripheralDesc { bus: Bus::Apb1l, bit: 1, amen: None, group: None },
            Peripheral::Tim4 => PeripheralDesc { bus: Bus::Apb1l, bit: 2, amen: None, group: None },
            Peripheral::Tim5 => PeripheralDesc { bus: Bus::Apb1l, bit: 3, amen: None, group: None },
            Peripheral::Tim6 => PeripheralDesc { bus: Bus::Apb1l, bit: 4, amen: None, group: None },
            Peripheral::Tim7 => PeripheralDesc { bus: Bus::Apb1l, bit: 5, amen: None, group: None },
            Peripheral::Tim12 => PeripheralDesc { bus: Bus::Apb1l, bit: 6, amen: None, group: None },
            Peripheral::Tim13 => PeripheralDesc { bus: Bus::Apb1l, bit: 7, amen: None, group: None },
            Peripheral::Tim14 => PeripheralDesc { bus: Bus::Apb1l, bit: 8, amen: None, group: None },
            Peripheral::Usart2 => PeripheralDesc { bus: Bus::Apb1l, bit: 17, amen: None, group: Some(KernelMux::Usart234578) },
            Peripheral::Usart3 => PeripheralDesc { bus: Bus::Apb1l, bit: 18, amen: None, group: Some(KernelMux::Usart234578) },
            Peripheral::Uart4 => PeripheralDesc { bus: Bus::Apb1l, bit: 19, amen: None, group: Some(KernelMux::Usart234578) },
            Peripheral::Uart5 => PeripheralDesc { bus: Bus::Apb1l, bit: 20, amen: None, group: Some(KernelMux::Usart234578) },
            Peripheral::Uart7 => PeripheralDesc { bus: Bus::Apb1l, bit: 30, amen: None, group: Some(KernelMux::Usart234578) },
            Peripheral::Uart8 => PeripheralDesc { bus: Bus::Apb1l, bit: 31, amen: None, group: Some(KernelMux::Usart234578) },
            Peripheral::Fdcan => PeripheralDesc { bus: Bus::Apb1h, bit: 8, amen: None, group: None },
            Peripheral::Swp => PeripheralDesc { bus: Bus::Apb1h, bit: 2, amen: None, group: None },
            Peripheral::Crs => PeripheralDesc { bus: Bus::Apb1h, bit: 1, amen: None, group: None },
            Peripheral::Mdios => PeripheralDesc { bus: Bus::Apb1h, bit: 5, amen: None, group: None },
            Peripheral::Opamp => PeripheralDesc { bus: Bus::Apb1h, bit: 4, amen: None, group: None },
            Peripheral::Hrtim => PeripheralDesc { bus: Bus::Apb2, bit: 29, amen: None, group: None },
            Peripheral::Dfsdm1 => PeripheralDesc { bus: Bus::Apb2, bit: 28, amen: None, group: None },
            Peripheral::Sai1 => PeripheralDesc { bus: Bus::Apb2, bit: 22, amen: None, group: None },
            Peripheral::Sai2 => PeripheralDesc { bus: Bus::Apb2, bit: 23, amen: None, group: Some(KernelMux::Sai23) },
            Peripheral::Sai3 => PeripheralDesc { bus: Bus::Apb2, bit: 24, amen: None, group: Some(KernelMux::Sai23) },
            Peripheral::Spi1 => PeripheralDesc { bus: Bus::Apb2, bit: 12, amen: None, group: Some(KernelMux::Spi123) },
            Peripheral::Spi4 => PeripheralDesc { bus: Bus::Apb2, bit: 13, amen: None, group: Some(KernelMux::Spi45) },
            Peripheral::Spi5 => PeripheralDesc { bus: Bus::Apb2, bit: 20, amen: None, group: Some(KernelMux::Spi45) },
            Peripheral::Tim1 => PeripheralDesc { bus: Bus::Apb2, bit: 0, amen: None, group: None },
            Peripheral::Tim8 => PeripheralDesc { bus: Bus::Apb2, bit: 1, amen: None, group: None },
            Peripheral::Tim15 => PeripheralDesc { bus: Bus::Apb2, bit: 16, amen: None, group: None },
            Peripheral::Tim16 => PeripheralDesc { bus: Bus::Apb2, bit: 17, amen: None, group: None },
            Peripheral::Tim17 => PeripheralDesc { bus: Bus::Apb2, bit: 18, amen: None, group: None },
            Peripheral::Usart1 => PeripheralDesc { bus: Bus::Apb2, bit: 4, amen: None, group: Some(KernelMux::Usart16) },
            Peripheral::Usart6 => PeripheralDesc { bus: Bus::Apb2, bit: 5, amen: None, group: Some(KernelMux::Usart16) },
            Peripheral::Ltdc => PeripheralDesc { bus: Bus::Apb3, bit: 3, amen: None, group: None },
            Peripheral::Vref => PeripheralDesc { bus: Bus::Apb4, bit: 15, amen: Some(15), group: None },
            Peripheral::Comp12 => PeripheralDesc { bus: Bus::Apb4, bit: 14, amen: Some(14), group: None },
            Peripheral::Lptim2 => PeripheralDesc { bus: Bus::Apb4, bit: 9, amen: Some(9), group: None },
            Peripheral::Lptim3 => PeripheralDesc { bus: Bus::Apb4, bit: 10, amen: Some(10), group: Some(KernelMux::Lptim345) },
            Peripheral::Lptim4 => PeripheralDesc { bus: Bus::Apb4, bit: 11, amen: Some(11), group: Some(KernelMux::Lptim345) },
            Peripheral::Lptim5 => PeripheralDesc { bus: Bus::Apb4, bit: 12, amen: Some(12), group: Some(KernelMux::Lptim345) },
            Peripheral::I2c4 => PeripheralDesc { bus: Bus::Apb4, bit: 7, amen: Some(7), group: None },
            Peripheral::Spi6 => PeripheralDesc { bus: Bus::Apb4, bit: 5, amen: Some(5), group: None },
            Peripheral::Sai4 => PeripheralDesc { bus: Bus::Apb4, bit: 21, amen: Some(21), group: None },
        }
    }

    /// Where this peripheral's bits lie and which shared multiplexer it reads.
    pub fn desc(self) -> (r: PeripheralDesc)
        ensures
            r == self.spec_desc(),
            r.bit < 32,
            r.amen matches Some(a) ==> a < 32,
    {
        match self {
            Peripheral::Eth1Mac => PeripheralDesc { bus: Bus::Ahb1, bit: 15, amen: None, group: None },
            Peripheral::Dma2 => PeripheralDesc { bus: Bus::Ahb1, bit: 1, amen: None, group: None },
            Peripheral::Dma1 => PeripheralDesc { bus: Bus::Ahb1, bit: 0, amen: None, group: None },
            Peripheral::Adc12 => PeripheralDesc { bus: Bus::Ahb1, bit: 5, amen: None, group: Some(KernelMux::Adc) },
            Peripheral::Hash => PeripheralDesc { bus: Bus::Ahb2, bit: 5, amen: None, group: None },
            Peripheral::Crypt => PeripheralDesc { bus: Bus::Ahb2, bit: 4, amen: None, group: None },
            Peripheral::Rng => PeripheralDesc { bus: Bus::Ahb2, bit: 6, amen: None, group: None },
            Peripheral::Sdmmc2 => PeripheralDesc { bus: Bus::Ahb2, bit: 9, amen: None, group: Some(KernelMux::Sdmmc) },
            Peripheral::Sdmmc1 => PeripheralDesc { bus: Bus::Ahb3, bit: 16, amen: None, group: Some(KernelMux::Sdmmc) },
            Peripheral::Qspi => PeripheralDesc { bus: Bus::Ahb3, bit: 14, amen: None, group: None },
            Peripheral::Fmc => PeripheralDesc { bus: Bus::Ahb3, bit: 12, amen: None, group: None },
            Peripheral::Jpgdec => PeripheralDesc { bus: Bus::Ahb3, bit: 5, amen: None, group: None },
            Peripheral::Dma2d => PeripheralDesc { bus: Bus::Ahb3, bit: 4, amen: None, group: None },
            Peripheral::Mdma => PeripheralDesc { bus: Bus::Ahb3, bit: 0, amen: None, group: None },
            Peripheral::Bdma => PeripheralDesc { bus: Bus::Ahb4, bit: 21, amen: Some(0), group: None },
            Peripheral::Crc => PeripheralDesc { bus: Bus::Ahb4, bit: 19, amen: Some(19), group: None },
            Peripheral::Adc3 => PeripheralDesc { bus: Bus::Ahb4, bit: 24, amen: Some(24), group: Some(KernelMux::Adc) },
            Peripheral::Gpioa => PeripheralDesc { bus: Bus::Ahb4, bit: 0, amen: None, group: None },
            Peripheral::Gpiob => PeripheralDesc { bus: Bus::Ahb4, bit: 1, amen: None, group: None },
            Peripheral::Gpioc => PeripheralDesc { bus: Bus::Ahb4, bit: 2, amen: None, group: None },
            Peripheral::Gpiod => PeripheralDesc { bus: Bus::Ahb4, bit: 3, amen: None, group: None },
            Peripheral::Gpioe => PeripheralDesc { bus: Bus::Ahb4, bit: 4, amen: None, group: None },
            Peripheral::Gpiof => PeripheralDesc { bus: Bus::Ahb4, bit: 5, amen: None, group: None },
            Peripheral::Gpiog => PeripheralDesc { bus: Bus::Ahb4, bit: 6, amen: None, group: None },
            Peripheral::Gpioh => PeripheralDesc { bus: Bus::Ahb4, bit: 7, amen: None, group: None },
            Peripheral::Gpioi => PeripheralDesc { bus: Bus::Ahb4, bit: 8, amen: None, group: None },
            Peripheral::Gpioj => PeripheralDesc { bus: Bus::Ahb4, bit: 9, amen: None, group: None },
            Peripheral::Gpiok => PeripheralDesc { bus: Bus::Ahb4, bit: 10, amen: None, group: None },
            Peripheral::Dac12 => PeripheralDesc { bus: Bus::Apb1l, bit: 29, amen: None, group: None },
            Peripheral::I2c1 => PeripheralDesc { bus: Bus::Apb1l, bit: 21, amen: None, group: Some(KernelMux::I2c123) },
            Peripheral::I2c2 => PeripheralDesc { bus: Bus::Apb1l, bit: 22, amen: None, group: Some(KernelMux::I2c123) },
            Peripheral::I2c3 => PeripheralDesc { bus: Bus::Apb1l, bit: 23, amen: None, group: Some(KernelMux::I2c123) },
            Peripheral::Cec => PeripheralDesc { bus: Bus::Apb1l, bit: 27, amen: None, group: None },
            Peripheral::Lptim1 => PeripheralDesc { bus: Bus::Apb1l, bit: 9, amen: None, group: None },
            Peripheral::Spi2 => PeripheralDesc { bus: Bus::Apb1l, bit: 14, amen: None, group: Some(KernelMux::Spi123) },
            Peripheral::Spi3 => PeripheralDesc { bus: Bus::Apb1l, bit: 15, amen: None, group: Some(KernelMux::Spi123) },
            Peripheral::Tim2 => PeripheralDesc { bus: Bus::Apb1l, bit: 0, amen: None, group: None },
            Peripheral::Tim3 => PeripheralDesc { bus: Bus::Apb1l, bit: 1, amen: None, group: None },
            Peripheral::Tim4 => PeripheralDesc { bus: Bus::Apb1l, bit: 2, amen: None, group: None },
            Peripheral::Tim5 => PeripheralDesc { bus: Bus::Apb1l, bit: 3, amen: None, group: None },
            Peripheral::Tim6 => PeripheralDesc { bus: Bus::Apb1l, bit: 4, amen: None, group: None },
            Peripheral::Tim7 => PeripheralDesc { bus: Bus::Apb1l, bit: 5, amen: None, group: None },
            Peripheral::Tim12 => PeripheralDesc { bus: Bus::Apb1l, bit: 6, amen: None, group: None },
            Peripheral::Tim13 => PeripheralDesc { bus: Bus::Apb1l, bit: 7, amen: None, group: None },
            Peripheral::Tim14 => PeripheralDesc { bus: Bus::Apb1l, bit: 8, amen: None, group: None },
            Peripheral::Usart2 => PeripheralDesc { bus: Bus::Apb1l, bit: 17, amen: None, group: Some(KernelMux::Usart234578) },
            Peripheral::Usart3 => PeripheralDesc { bus: Bus::Apb1l, bit: 18, amen: None, group: Some(KernelMux::Usart234578) },
            Peripheral::Uart4 => PeripheralDesc { bus: Bus::Apb1l, bit: 19, amen: None, group: Some(KernelMux::Usart234578) },
            Peripheral::Uart5 => PeripheralDesc { bus: Bus::Apb1l, bit: 20, amen: None, group: Some(KernelMux::Usart234578) },
            Peripheral::Uart7 => PeripheralDesc { bus: Bus::Apb1l, bit: 30, amen: None, group: Some(KernelMux::Usart234578) },
            Peripheral::Uart8 => PeripheralDesc { bus: Bus::Apb1l, bit: 31, amen: None, group: Some(KernelMux::Usart234578) },
            Peripheral::Fdcan => PeripheralDesc { bus: Bus::Apb1h, bit: 8, amen: None, group: None },
            Peripheral::Swp => PeripheralDesc { bus: Bus::Apb1h, bit: 2, amen: None, group: None },
            Peripheral::Crs => PeripheralDesc { bus: Bus::Apb1h, bit: 1, amen: None, group: None },
            Peripheral::Mdios => PeripheralDesc { bus: Bus::Apb1h, bit: 5, amen: None, group: None },
            Peripheral::Opamp => PeripheralDesc { bus: Bus::Apb1h, bit: 4, amen: None, group: None },
            Peripheral::Hrtim => PeripheralDesc { bus: Bus::Apb2, bit: 29, amen: None, group: None },
            Peripheral::Dfsdm1 => PeripheralDesc { bus: Bus::Apb2, bit: 28, amen: None, group: None },
            Peripheral::Sai1 => PeripheralDesc { bus: Bus::Apb2, bit: 22, amen: None, group: None },
            Peripheral::Sai2 => PeripheralDesc { bus: Bus::Apb2, bit: 23, amen: None, group: Some(KernelMux::Sai23) },
            Peripheral::Sai3 => PeripheralDesc { bus: Bus::Apb2, bit: 24, amen: None, group: Some(KernelMux::Sai23) },
            Peripheral::Spi1 => PeripheralDesc { bus: Bus::Apb2, bit: 12, amen: None, group: Some(KernelMux::Spi123) },
            Peripheral::Spi4 => PeripheralDesc { bus: Bus::Apb2, bit: 13, amen: None, group: Some(KernelMux::Spi45) },
            Peripheral::Spi5 => PeripheralDesc { bus: Bus::Apb2, bit: 20, amen: None, group: Some(KernelMux::Spi45) },
            Peripheral::Tim1 => PeripheralDesc { bus: Bus::Apb2, bit: 0, amen: None, group: None },
            Peripheral::Tim8 => PeripheralDesc { bus: Bus::Apb2, bit: 1, amen: None, group: None },
            Peripheral::Tim15 => PeripheralDesc { bus: Bus::Apb2, bit: 16, amen: None, group: None },
            Peripheral::Tim16 => PeripheralDesc { bus: Bus::Apb2, bit: 17, amen: None, group: None },
            Peripheral::Tim17 => PeripheralDesc { bus: Bus::Apb2, bit: 18, amen: None, group: None },
            Peripheral::Usart1 => PeripheralDesc { bus: Bus::Apb2, bit: 4, amen: None, group: Some(KernelMux::Usart16) },
            Peripheral::Usart6 => PeripheralDesc { bus: Bus::Apb2, bit: 5, amen: None, group: Some(KernelMux::Usart16) },
            Peripheral::Ltdc => PeripheralDesc { bus: Bus::Apb3, bit: 3, amen: None, group: None },
            Peripheral::Vref => PeripheralDesc { bus: Bus::Apb4, bit: 15, amen: Some(15), group: None },
            Peripheral::Comp12 => PeripheralDesc { bus: Bus::Apb4, bit: 14, amen: Some(14), group: None },
            Peripheral::Lptim2 => PeripheralDesc { bus: Bus::Apb4, bit: 9, amen: Some(9), group: None },
            Peripheral::Lptim3 => PeripheralDesc { bus: Bus::Apb4, bit: 10, amen: Some(10), group: Some(KernelMux::Lptim345) },
            Peripheral::Lptim4 => PeripheralDesc { bus: Bus::Apb4, bit: 11, amen: Some(11), group: Some(KernelMux::Lptim345) },
            Peripheral::Lptim5 => PeripheralDesc { bus: Bus::Apb4, bit: 12, amen: Some(12), group: Some(KernelMux::Lptim345) },
            Peripheral::I2c4 => PeripheralDesc { bus: Bus::Apb4, bit: 7, amen: Some(7), group: None },
            Peripheral::Spi6 => PeripheralDesc { bus: Bus::Apb4, bit: 5, amen: Some(5), group: None },
            Peripheral::Sai4 => PeripheralDesc { bus: Bus::Apb4, bit: 21, amen: Some(21), group: None },
        }
    }

}

} // verus!
