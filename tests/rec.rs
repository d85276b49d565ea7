use h7_rec::bits::{clear_bit, read_field, set_bit, write_bit, write_field};
use h7_rec::ccu::{BitWrite, Bus, Ccip, Ccu, FieldWrite, Reg};
use h7_rec::mux::{ClkSource, KernelMux, MuxValue};
use h7_rec::periph::{Peripheral, PeripheralDesc};
use h7_rec::rec::{GroupLocked, LowPowerMode, Rcc, ResetEnable};
use stm32h7::stm32h743::rcc;

#[test]
fn each_token_is_issued_once() {
    let mut rec = Rcc::new().freeze();
    let tim2 = rec.take(Peripheral::Tim2);
    assert!(tim2.is_some());
    assert_eq!(tim2.unwrap().peripheral(), Peripheral::Tim2);
    assert!(rec.take(Peripheral::Tim2).is_none());
    assert!(rec.take(Peripheral::Tim3).is_some());
    assert!(rec.take(Peripheral::Tim3).is_none());
}

#[test]
fn stolen_registry_holds_every_token() {
    let rcc = Rcc::new();
    let mut rec = rcc.steal_peripheral_rec();
    assert!(rec.take(Peripheral::Gpioa).is_some());
    assert!(rec.take(Peripheral::Sai4).is_some());
    assert!(rec.take(Peripheral::Gpioa).is_none());
}

#[test]
fn enable_then_disable_flips_only_own_bit() {
    let mut ccu = Ccu::new();
    let mut rec = Rcc::new().freeze();
    ccu.write(Reg::Enable(Bus::Apb1l), 0x8000_0002);
    let tim2 = rec.take(Peripheral::Tim2).unwrap();
    let tim2 = tim2.enable(&mut ccu);
    assert_eq!(ccu.read(Reg::Enable(Bus::Apb1l)), 0x8000_0003);
    let _tim2 = tim2.disable(&mut ccu);
    assert_eq!(ccu.read(Reg::Enable(Bus::Apb1l)), 0x8000_0002);
    assert_eq!(ccu.read(Reg::Enable(Bus::Apb2)), 0);
    assert_eq!(ccu.read(Reg::LowPower(Bus::Apb1l)), 0);
}

#[test]
fn reset_leaves_reset_bit_clear() {
    let mut ccu = Ccu::new();
    let mut rec = Rcc::new().freeze();
    ccu.write(Reg::Reset(Bus::Apb2), 0x0000_0100);
    let usart1 = rec.take(Peripheral::Usart1).unwrap();
    let usart1 = usart1.enable(&mut ccu).reset(&mut ccu);
    assert_eq!(ccu.read(Reg::Reset(Bus::Apb2)), 0x0000_0100);
    assert_eq!(ccu.read(Reg::Enable(Bus::Apb2)), 1 << 4);
    assert_eq!(usart1.peripheral(), Peripheral::Usart1);
}

#[test]
fn autonomous_without_amen_bit_acts_as_enabled() {
    let mut ccu = Ccu::new();
    let mut rec = Rcc::new().freeze();
    ccu.write(Reg::Autonomous, 0x0000_0001);
    let tim2 = rec.take(Peripheral::Tim2).unwrap();
    let _tim2 = tim2.low_power(&mut ccu, LowPowerMode::Autonomous);
    assert_eq!(ccu.read(Reg::LowPower(Bus::Apb1l)), 1);
    assert_eq!(ccu.read(Reg::Autonomous), 0x0000_0001);
}

#[test]
fn low_power_modes_with_amen_bit() {
    let mut ccu = Ccu::new();
    let mut rec = Rcc::new().freeze();
    let bdma = rec.take(Peripheral::Bdma).unwrap();
    let bdma = bdma.low_power(&mut ccu, LowPowerMode::Autonomous);
    assert_eq!(ccu.read(Reg::LowPower(Bus::Ahb4)), 1 << 21);
    assert_eq!(ccu.read(Reg::Autonomous), 1);
    let bdma = bdma.low_power(&mut ccu, LowPowerMode::Enabled);
    assert_eq!(ccu.read(Reg::LowPower(Bus::Ahb4)), 1 << 21);
    assert_eq!(ccu.read(Reg::Autonomous), 0);
    let _bdma = bdma.low_power(&mut ccu, LowPowerMode::Off);
    assert_eq!(ccu.read(Reg::LowPower(Bus::Ahb4)), 0);
    assert_eq!(ccu.read(Reg::Autonomous), 0);
}

#[test]
fn low_power_mode_defaults_to_enabled() {
    assert_eq!(LowPowerMode::default(), LowPowerMode::Enabled);
}

#[test]
fn individual_mux_reads_back_selection() {
    let mut ccu = Ccu::new();
    let mut rec = Rcc::new().freeze();
    let cec = rec.take(Peripheral::Cec).unwrap();
    let cec = cec.kernel_mux(&mut ccu, KernelMux::Cec, ClkSource::Lsi);
    assert_eq!(cec.get_kernel_mux(&ccu, KernelMux::Cec), MuxValue::Known(ClkSource::Lsi));
    assert_eq!(ccu.read(Reg::KernelClock(Ccip::D2ccip2)), 1 << 22);
    let cec = cec.kernel_mux(&mut ccu, KernelMux::Cec, ClkSource::CsiKer);
    assert_eq!(cec.get_kernel_mux(&ccu, KernelMux::Cec), MuxValue::Known(ClkSource::CsiKer));
    assert_eq!(ccu.read(Reg::KernelClock(Ccip::D2ccip2)), 2 << 22);
}

#[test]
fn peripheral_with_two_muxes_sets_each_field() {
    let mut ccu = Ccu::new();
    let mut rec = Rcc::new().freeze();
    let sai4 = rec.take(Peripheral::Sai4).unwrap();
    let sai4 = sai4
        .kernel_mux(&mut ccu, KernelMux::Sai4A, ClkSource::Per)
        .kernel_mux(&mut ccu, KernelMux::Sai4B, ClkSource::Pll3P);
    assert_eq!(ccu.read(Reg::KernelClock(Ccip::D3ccip)), (4 << 21) | (2 << 24));
    assert_eq!(sai4.get_kernel_mux(&ccu, KernelMux::Sai4A), MuxValue::Known(ClkSource::Per));
    assert_eq!(sai4.get_kernel_mux(&ccu, KernelMux::Sai4B), MuxValue::Known(ClkSource::Pll3P));
}

#[test]
fn shared_mux_is_seen_by_every_member() {
    let mut ccu = Ccu::new();
    let mut rec = Rcc::new().freeze();
    assert_eq!(
        rec.kernel_group_clk_mux(&mut ccu, KernelMux::I2c123, ClkSource::Pll3R),
        Ok(())
    );
    assert_eq!(ccu.read(Reg::KernelClock(Ccip::D2ccip2)), 1 << 12);
    let i2c1 = rec.take(Peripheral::I2c1).unwrap();
    let i2c2 = rec.take(Peripheral::I2c2).unwrap();
    let i2c3 = rec.take(Peripheral::I2c3).unwrap();
    let want = MuxValue::Known(ClkSource::Pll3R);
    assert_eq!(i2c1.get_kernel_clk_mux(&ccu), want);
    assert_eq!(i2c2.get_kernel_clk_mux(&ccu), want);
    assert_eq!(i2c3.get_kernel_clk_mux(&ccu), want);
}

#[test]
fn shared_mux_locked_once_a_member_leaves() {
    let mut ccu = Ccu::new();
    let mut rec = Rcc::new().freeze();
    assert_eq!(
        rec.kernel_group_clk_mux(&mut ccu, KernelMux::Usart234578, ClkSource::Pll2Q),
        Ok(())
    );
    let uart7 = rec.take(Peripheral::Uart7).unwrap();
    assert!(rec.is_group_locked(KernelMux::Usart234578));
    assert_eq!(
        rec.kernel_group_clk_mux(&mut ccu, KernelMux::Usart234578, ClkSource::HsiKer),
        Err(GroupLocked)
    );
    assert_eq!(ccu.read(Reg::KernelClock(Ccip::D2ccip2)), 1);
    assert_eq!(uart7.get_kernel_clk_mux(&ccu), MuxValue::Known(ClkSource::Pll2Q));
    assert!(!rec.is_group_locked(KernelMux::Spi123));
    assert_eq!(
        rec.kernel_group_clk_mux(&mut ccu, KernelMux::Spi123, ClkSource::Per),
        Ok(())
    );
    assert_eq!(ccu.read(Reg::KernelClock(Ccip::D2ccip1)), 4 << 12);
}

#[test]
fn interleaved_enable_and_disable_lose_no_update() {
    let mut ccu = Ccu::new();
    let mut rec = Rcc::new().freeze();
    ccu.write(Reg::Enable(Bus::Apb1l), 1 << 18);
    let usart2 = rec.take(Peripheral::Usart2).unwrap();
    let usart3 = rec.take(Peripheral::Usart3).unwrap();
    let i2c1 = rec.take(Peripheral::I2c1).unwrap();
    let _usart2 = usart2.enable(&mut ccu);
    // an interrupt handler runs between the two operations
    let i2c1 = i2c1.enable(&mut ccu);
    let usart3 = usart3.disable(&mut ccu);
    assert_eq!(ccu.read(Reg::Enable(Bus::Apb1l)), (1 << 17) | (1 << 21));
    // and in the other order, with the interrupt first
    let i2c1 = i2c1.disable(&mut ccu);
    let _usart3 = usart3.enable(&mut ccu);
    let _i2c1 = i2c1.enable(&mut ccu);
    assert_eq!(ccu.read(Reg::Enable(Bus::Apb1l)), (1 << 17) | (1 << 18) | (1 << 21));
}

#[test]
fn reserved_selector_code_reads_raw() {
    let mut ccu = Ccu::new();
    let mut rec = Rcc::new().freeze();
    ccu.write(Reg::KernelClock(Ccip::D2ccip2), 7 | (3 << 22));
    let usart2 = rec.take(Peripheral::Usart2).unwrap();
    let cec = rec.take(Peripheral::Cec).unwrap();
    assert_eq!(usart2.get_kernel_clk_mux(&ccu), MuxValue::UnknownRaw(7));
    assert_eq!(cec.get_kernel_mux(&ccu, KernelMux::Cec), MuxValue::UnknownRaw(3));
}

#[test]
fn selection_codes_follow_the_hardware_tables() {
    assert_eq!(KernelMux::Fdcan.encode(ClkSource::Pll2Q), Some(2));
    assert_eq!(KernelMux::Fdcan.encode(ClkSource::Lse), None);
    assert_eq!(KernelMux::Fdcan.decode(3), MuxValue::UnknownRaw(3));
    assert_eq!(KernelMux::Rng.decode(3), MuxValue::Known(ClkSource::Lsi));
    assert_eq!(KernelMux::Adc.encode(ClkSource::Per), Some(2));
    assert_eq!(KernelMux::Swp.decode(1), MuxValue::Known(ClkSource::HsiKer));
}

#[test]
fn peripheral_descriptors_locate_bits() {
    assert_eq!(
        Peripheral::Bdma.desc(),
        PeripheralDesc { bus: Bus::Ahb4, bit: 21, amen: Some(0), group: None }
    );
    assert_eq!(
        Peripheral::Uart8.desc(),
        PeripheralDesc {
            bus: Bus::Apb1l,
            bit: 31,
            amen: None,
            group: Some(KernelMux::Usart234578)
        }
    );
}

#[test]
fn word_operations_have_exact_results() {
    assert_eq!(set_bit(0, 5), 32);
    assert_eq!(clear_bit(0xFF, 0), 0xFE);
    assert_eq!(write_bit(0x10, 4, false), 0);
    assert_eq!(write_field(0xFFFF_FFFF, 4, 2, 1), 0xFFFF_FFDF);
    assert_eq!(read_field(0x30, 4, 2), 3);
    assert_eq!(read_field(0x8000_0000, 31, 1), 1);
}

#[test]
fn selection_codes_match_the_device_description() {
    assert_eq!(
        KernelMux::Fmc.encode(ClkSource::RccHclk3),
        Some(u8::from(rcc::d1ccipr::FMCSEL::RccHclk3) as u32)
    );
    assert_eq!(
        KernelMux::Fmc.encode(ClkSource::Pll1Q),
        Some(u8::from(rcc::d1ccipr::FMCSEL::Pll1Q) as u32)
    );
    assert_eq!(
        KernelMux::Fmc.encode(ClkSource::Pll2R),
        Some(u8::from(rcc::d1ccipr::FMCSEL::Pll2R) as u32)
    );
    assert_eq!(
        KernelMux::Fmc.encode(ClkSource::Per),
        Some(u8::from(rcc::d1ccipr::FMCSEL::Per) as u32)
    );
    assert_eq!(
        KernelMux::Qspi.encode(ClkSource::RccHclk3),
        Some(u8::from(rcc::d1ccipr::FMCSEL::RccHclk3) as u32)
    );
    assert_eq!(
        KernelMux::Qspi.encode(ClkSource::Pll1Q),
        Some(u8::from(rcc::d1ccipr::FMCSEL::Pll1Q) as u32)
    );
    assert_eq!(
        KernelMux::Qspi.encode(ClkSource::Pll2R),
        Some(u8::from(rcc::d1ccipr::FMCSEL::Pll2R) as u32)
    );
    assert_eq!(
        KernelMux::Qspi.encode(ClkSource::Per),
        Some(u8::from(rcc::d1ccipr::FMCSEL::Per) as u32)
    );
    assert_eq!(
        KernelMux::Sdmmc.encode(ClkSource::Pll1Q),
        Some(bool::from(rcc::d1ccipr::SDMMCSEL::Pll1Q) as u32)
    );
    assert_eq!(
        KernelMux::Sdmmc.encode(ClkSource::Pll2R),
        Some(bool::from(rcc::d1ccipr::SDMMCSEL::Pll2R) as u32)
    );
    assert_eq!(
        KernelMux::Sai1.encode(ClkSource::Pll1Q),
        Some(u8::from(rcc::d2ccip1r::SAI1SEL::Pll1Q) as u32)
    );
    assert_eq!(
        KernelMux::Sai1.encode(ClkSource::Pll2P),
        Some(u8::from(rcc::d2ccip1r::SAI1SEL::Pll2P) as u32)
    );
    assert_eq!(
        KernelMux::Sai1.encode(ClkSource::Pll3P),
        Some(u8::from(rcc::d2ccip1r::SAI1SEL::Pll3P) as u32)
    );
    assert_eq!(
        KernelMux::Sai1.encode(ClkSource::I2sCkin),
        Some(u8::from(rcc::d2ccip1r::SAI1SEL::I2sCkin) as u32)
    );
    assert_eq!(
        KernelMux::Sai1.encode(ClkSource::Per),
        Some(u8::from(rcc::d2ccip1r::SAI1SEL::Per) as u32)
    );
    assert_eq!(
        KernelMux::Sai23.encode(ClkSource::Pll1Q),
        Some(u8::from(rcc::d2ccip1r::SAI1SEL::Pll1Q) as u32)
    );
    assert_eq!(
        KernelMux::Sai23.encode(ClkSource::Pll2P),
        Some(u8::from(rcc::d2ccip1r::SAI1SEL::Pll2P) as u32)
    );
    assert_eq!(
        KernelMux::Sai23.encode(ClkSource::Pll3P),
        Some(u8::from(rcc::d2ccip1r::SAI1SEL::Pll3P) as u32)
    );
    assert_eq!(
        KernelMux::Sai23.encode(ClkSource::I2sCkin),
        Some(u8::from(rcc::d2ccip1r::SAI1SEL::I2sCkin) as u32)
    );
    assert_eq!(
        KernelMux::Sai23.encode(ClkSource::Per),
        Some(u8::from(rcc::d2ccip1r::SAI1SEL::Per) as u32)
    );
    assert_eq!(
        KernelMux::Spi123.encode(ClkSource::Pll1Q),
        Some(u8::from(rcc::d2ccip1r::SAI1SEL::Pll1Q) as u32)
    );
    assert_eq!(
        KernelMux::Spi123.encode(ClkSource::Pll2P),
        Some(u8::from(rcc::d2ccip1r::SAI1SEL::Pll2P) as u32)
    );
    assert_eq!(
        KernelMux::Spi123.encode(ClkSource::Pll3P),
        Some(u8::from(rcc::d2ccip1r::SAI1SEL::Pll3P) as u32)
    );
    assert_eq!(
        KernelMux::Spi123.encode(ClkSource::I2sCkin),
        Some(u8::from(rcc::d2ccip1r::SAI1SEL::I2sCkin) as u32)
    );
    assert_eq!(
        KernelMux::Spi123.encode(ClkSource::Per),
        Some(u8::from(rcc::d2ccip1r::SAI1SEL::Per) as u32)
    );
    assert_eq!(
        KernelMux::Spi45.encode(ClkSource::Apb),
        Some(u8::from(rcc::d2ccip1r::SPI45SEL::Apb) as u32)
    );
    assert_eq!(
        KernelMux::Spi45.encode(ClkSource::Pll2Q),
        Some(u8::from(rcc::d2ccip1r::SPI45SEL::Pll2Q) as u32)
    );
    assert_eq!(
        KernelMux::Spi45.encode(ClkSource::Pll3Q),
        Some(u8::from(rcc::d2ccip1r::SPI45SEL::Pll3Q) as u32)
    );
    assert_eq!(
        KernelMux::Spi45.encode(ClkSource::HsiKer),
        Some(u8::from(rcc::d2ccip1r::SPI45SEL::HsiKer) as u32)
    );
    assert_eq!(
        KernelMux::Spi45.encode(ClkSource::CsiKer),
        Some(u8::from(rcc::d2ccip1r::SPI45SEL::CsiKer) as u32)
    );
    assert_eq!(
        KernelMux::Spi45.encode(ClkSource::Hse),
        Some(u8::from(rcc::d2ccip1r::SPI45SEL::Hse) as u32)
    );
    assert_eq!(
        KernelMux::Dfsdm1.encode(ClkSource::RccPclk2),
        Some(bool::from(rcc::d2ccip1r::DFSDM1SEL::RccPclk2) as u32)
    );
    assert_eq!(
        KernelMux::Dfsdm1.encode(ClkSource::Sys),
        Some(bool::from(rcc::d2ccip1r::DFSDM1SEL::Sys) as u32)
    );
    assert_eq!(
        KernelMux::Fdcan.encode(ClkSource::Hse),
        Some(u8::from(rcc::d2ccip1r::FDCANSEL::Hse) as u32)
    );
    assert_eq!(
        KernelMux::Fdcan.encode(ClkSource::Pll1Q),
        Some(u8::from(rcc::d2ccip1r::FDCANSEL::Pll1Q) as u32)
    );
    assert_eq!(
        KernelMux::Fdcan.encode(ClkSource::Pll2Q),
        Some(u8::from(rcc::d2ccip1r::FDCANSEL::Pll2Q) as u32)
    );
    assert_eq!(
        KernelMux::Swp.encode(ClkSource::Pclk),
        Some(bool::from(rcc::d2ccip1r::SWPSEL::Pclk) as u32)
    );
    assert_eq!(
        KernelMux::Swp.encode(ClkSource::HsiKer),
        Some(bool::from(rcc::d2ccip1r::SWPSEL::HsiKer) as u32)
    );
    assert_eq!(
        KernelMux::Usart234578.encode(ClkSource::RccPclk1),
        Some(u8::from(rcc::d2ccip2r::USART234578SEL::RccPclk1) as u32)
    );
    assert_eq!(
        KernelMux::Usart234578.encode(ClkSource::Pll2Q),
        Some(u8::from(rcc::d2ccip2r::USART234578SEL::Pll2Q) as u32)
    );
    assert_eq!(
        KernelMux::Usart234578.encode(ClkSource::Pll3Q),
        Some(u8::from(rcc::d2ccip2r::USART234578SEL::Pll3Q) as u32)
    );
    assert_eq!(
        KernelMux::Usart234578.encode(ClkSource::HsiKer),
        Some(u8::from(rcc::d2ccip2r::USART234578SEL::HsiKer) as u32)
    );
    assert_eq!(
        KernelMux::Usart234578.encode(ClkSource::CsiKer),
        Some(u8::from(rcc::d2ccip2r::USART234578SEL::CsiKer) as u32)
    );
    assert_eq!(
        KernelMux::Usart234578.encode(ClkSource::Lse),
        Some(u8::from(rcc::d2ccip2r::USART234578SEL::Lse) as u32)
    );
    assert_eq!(
        KernelMux::Usart16.encode(ClkSource::RccPclk2),
        Some(u8::from(rcc::d2ccip2r::USART16SEL::RccPclk2) as u32)
    );
    assert_eq!(
        KernelMux::Usart16.encode(ClkSource::Pll2Q),
        Some(u8::from(rcc::d2ccip2r::USART16SEL::Pll2Q) as u32)
    );
    assert_eq!(
        KernelMux::Usart16.encode(ClkSource::Pll3Q),
        Some(u8::from(rcc::d2ccip2r::USART16SEL::Pll3Q) as u32)
    );
    assert_eq!(
        KernelMux::Usart16.encode(ClkSource::HsiKer),
        Some(u8::from(rcc::d2ccip2r::USART16SEL::HsiKer) as u32)
    );
    assert_eq!(
        KernelMux::Usart16.encode(ClkSource::CsiKer),
        Some(u8::from(rcc::d2ccip2r::USART16SEL::CsiKer) as u32)
    );
    assert_eq!(
        KernelMux::Usart16.encode(ClkSource::Lse),
        Some(u8::from(rcc::d2ccip2r::USART16SEL::Lse) as u32)
    );
    assert_eq!(
        KernelMux::Rng.encode(ClkSource::Hsi48),
        Some(u8::from(rcc::d2ccip2r::RNGSEL::Hsi48) as u32)
    );
    assert_eq!(
        KernelMux::Rng.encode(ClkSource::Pll1Q),
        Some(u8::from(rcc::d2ccip2r::RNGSEL::Pll1Q) as u32)
    );
    assert_eq!(
        KernelMux::Rng.encode(ClkSource::Lse),
        Some(u8::from(rcc::d2ccip2r::RNGSEL::Lse) as u32)
    );
    assert_eq!(
        KernelMux::Rng.encode(ClkSource::Lsi),
        Some(u8::from(rcc::d2ccip2r::RNGSEL::Lsi) as u32)
    );
    assert_eq!(
        KernelMux::I2c123.encode(ClkSource::RccPclk1),
        Some(u8::from(rcc::d2ccip2r::I2C123SEL::RccPclk1) as u32)
    );
    assert_eq!(
        KernelMux::I2c123.encode(ClkSource::Pll3R),
        Some(u8::from(rcc::d2ccip2r::I2C123SEL::Pll3R) as u32)
    );
    assert_eq!(
        KernelMux::I2c123.encode(ClkSource::HsiKer),
        Some(u8::from(rcc::d2ccip2r::I2C123SEL::HsiKer) as u32)
    );
    assert_eq!(
        KernelMux::I2c123.encode(ClkSource::CsiKer),
        Some(u8::from(rcc::d2ccip2r::I2C123SEL::CsiKer) as u32)
    );
    assert_eq!(
        KernelMux::Cec.encode(ClkSource::Lse),
        Some(u8::from(rcc::d2ccip2r::CECSEL::Lse) as u32)
    );
    assert_eq!(
        KernelMux::Cec.encode(ClkSource::Lsi),
        Some(u8::from(rcc::d2ccip2r::CECSEL::Lsi) as u32)
    );
    assert_eq!(
        KernelMux::Cec.encode(ClkSource::CsiKer),
        Some(u8::from(rcc::d2ccip2r::CECSEL::CsiKer) as u32)
    );
    assert_eq!(
        KernelMux::Lptim1.encode(ClkSource::RccPclk1),
        Some(u8::from(rcc::d2ccip2r::LPTIM1SEL::RccPclk1) as u32)
    );
    assert_eq!(
        KernelMux::Lptim1.encode(ClkSource::Pll2P),
        Some(u8::from(rcc::d2ccip2r::LPTIM1SEL::Pll2P) as u32)
    );
    assert_eq!(
        KernelMux::Lptim1.encode(ClkSource::Pll3R),
        Some(u8::from(rcc::d2ccip2r::LPTIM1SEL::Pll3R) as u32)
    );
    assert_eq!(
        KernelMux::Lptim1.encode(ClkSource::Lse),
        Some(u8::from(rcc::d2ccip2r::LPTIM1SEL::Lse) as u32)
    );
    assert_eq!(
        KernelMux::Lptim1.encode(ClkSource::Lsi),
        Some(u8::from(rcc::d2ccip2r::LPTIM1SEL::Lsi) as u32)
    );
    assert_eq!(
        KernelMux::Lptim1.encode(ClkSource::Per),
        Some(u8::from(rcc::d2ccip2r::LPTIM1SEL::Per) as u32)
    );
    assert_eq!(
        KernelMux::I2c4.encode(ClkSource::RccPclk4),
        Some(u8::from(rcc::d3ccipr::I2C4SEL::RccPclk4) as u32)
    );
    assert_eq!(
        KernelMux::I2c4.encode(ClkSource::Pll3R),
        Some(u8::from(rcc::d3ccipr::I2C4SEL::Pll3R) as u32)
    );
    assert_eq!(
        KernelMux::I2c4.encode(ClkSource::HsiKer),
        Some(u8::from(rcc::d3ccipr::I2C4SEL::HsiKer) as u32)
    );
    assert_eq!(
        KernelMux::I2c4.encode(ClkSource::CsiKer),
        Some(u8::from(rcc::d3ccipr::I2C4SEL::CsiKer) as u32)
    );
    assert_eq!(
        KernelMux::Lptim2.encode(ClkSource::RccPclk4),
        Some(u8::from(rcc::d3ccipr::LPTIM2SEL::RccPclk4) as u32)
    );
    assert_eq!(
        KernelMux::Lptim2.encode(ClkSource::Pll2P),
        Some(u8::from(rcc::d3ccipr::LPTIM2SEL::Pll2P) as u32)
    );
    assert_eq!(
        KernelMux::Lptim2.encode(ClkSource::Pll3R),
        Some(u8::from(rcc::d3ccipr::LPTIM2SEL::Pll3R) as u32)
    );
    assert_eq!(
        KernelMux::Lptim2.encode(ClkSource::Lse),
        Some(u8::from(rcc::d3ccipr::LPTIM2SEL::Lse) as u32)
    );
    assert_eq!(
        KernelMux::Lptim2.encode(ClkSource::Lsi),
        Some(u8::from(rcc::d3ccipr::LPTIM2SEL::Lsi) as u32)
    );
    assert_eq!(
        KernelMux::Lptim2.encode(ClkSource::Per),
        Some(u8::from(rcc::d3ccipr::LPTIM2SEL::Per) as u32)
    );
    assert_eq!(
        KernelMux::Lptim345.encode(ClkSource::RccPclk4),
        Some(u8::from(rcc::d3ccipr::LPTIM2SEL::RccPclk4) as u32)
    );
    assert_eq!(
        KernelMux::Lptim345.encode(ClkSource::Pll2P),
        Some(u8::from(rcc::d3ccipr::LPTIM2SEL::Pll2P) as u32)
    );
    assert_eq!(
        KernelMux::Lptim345.encode(ClkSource::Pll3R),
        Some(u8::from(rcc::d3ccipr::LPTIM2SEL::Pll3R) as u32)
    );
    assert_eq!(
        KernelMux::Lptim345.encode(ClkSource::Lse),
        Some(u8::from(rcc::d3ccipr::LPTIM2SEL::Lse) as u32)
    );
    assert_eq!(
        KernelMux::Lptim345.encode(ClkSource::Lsi),
        Some(u8::from(rcc::d3ccipr::LPTIM2SEL::Lsi) as u32)
    );
    assert_eq!(
        KernelMux::Lptim345.encode(ClkSource::Per),
        Some(u8::from(rcc::d3ccipr::LPTIM2SEL::Per) as u32)
    );
    assert_eq!(
        KernelMux::Adc.encode(ClkSource::Pll2P),
        Some(u8::from(rcc::d3ccipr::ADCSEL::Pll2P) as u32)
    );
    assert_eq!(
        KernelMux::Adc.encode(ClkSource::Pll3R),
        Some(u8::from(rcc::d3ccipr::ADCSEL::Pll3R) as u32)
    );
    assert_eq!(
        KernelMux::Adc.encode(ClkSource::Per),
        Some(u8::from(rcc::d3ccipr::ADCSEL::Per) as u32)
    );
    assert_eq!(
        KernelMux::Sai4A.encode(ClkSource::Pll1Q),
        Some(u8::from(rcc::d3ccipr::SAI4ASEL::Pll1Q) as u32)
    );
    assert_eq!(
        KernelMux::Sai4A.encode(ClkSource::Pll2P),
        Some(u8::from(rcc::d3ccipr::SAI4ASEL::Pll2P) as u32)
    );
    assert_eq!(
        KernelMux::Sai4A.encode(ClkSource::Pll3P),
        Some(u8::from(rcc::d3ccipr::SAI4ASEL::Pll3P) as u32)
    );
    assert_eq!(
        KernelMux::Sai4A.encode(ClkSource::I2sCkin),
        Some(u8::from(rcc::d3ccipr::SAI4ASEL::I2sCkin) as u32)
    );
    assert_eq!(
        KernelMux::Sai4A.encode(ClkSource::Per),
        Some(u8::from(rcc::d3ccipr::SAI4ASEL::Per) as u32)
    );
    assert_eq!(
        KernelMux::Sai4B.encode(ClkSource::Pll1Q),
        Some(u8::from(rcc::d3ccipr::SAI4ASEL::Pll1Q) as u32)
    );
    assert_eq!(
        KernelMux::Sai4B.encode(ClkSource::Pll2P),
        Some(u8::from(rcc::d3ccipr::SAI4ASEL::Pll2P) as u32)
    );
    assert_eq!(
        KernelMux::Sai4B.encode(ClkSource::Pll3P),
        Some(u8::from(rcc::d3ccipr::SAI4ASEL::Pll3P) as u32)
    );
    assert_eq!(
        KernelMux::Sai4B.encode(ClkSource::I2sCkin),
        Some(u8::from(rcc::d3ccipr::SAI4ASEL::I2sCkin) as u32)
    );
    assert_eq!(
        KernelMux::Sai4B.encode(ClkSource::Per),
        Some(u8::from(rcc::d3ccipr::SAI4ASEL::Per) as u32)
    );
    assert_eq!(
        KernelMux::Spi6.encode(ClkSource::RccPclk4),
        Some(u8::from(rcc::d3ccipr::SPI6SEL::RccPclk4) as u32)
    );
    assert_eq!(
        KernelMux::Spi6.encode(ClkSource::Pll2Q),
        Some(u8::from(rcc::d3ccipr::SPI6SEL::Pll2Q) as u32)
    );
    assert_eq!(
        KernelMux::Spi6.encode(ClkSource::Pll3Q),
        Some(u8::from(rcc::d3ccipr::SPI6SEL::Pll3Q) as u32)
    );
    assert_eq!(
        KernelMux::Spi6.encode(ClkSource::HsiKer),
        Some(u8::from(rcc::d3ccipr::SPI6SEL::HsiKer) as u32)
    );
    assert_eq!(
        KernelMux::Spi6.encode(ClkSource::CsiKer),
        Some(u8::from(rcc::d3ccipr::SPI6SEL::CsiKer) as u32)
    );
    assert_eq!(
        KernelMux::Spi6.encode(ClkSource::Hse),
        Some(u8::from(rcc::d3ccipr::SPI6SEL::Hse) as u32)
    );
}

#[test]
fn token_plans_name_the_right_bits() {
    let mut rec = Rcc::new().freeze();
    let tim2 = rec.take(Peripheral::Tim2).unwrap();
    let on = BitWrite { reg: Reg::Enable(Bus::Apb1l), bit: 0, value: true };
    assert_eq!(tim2.enable_write(), on);
    assert_eq!(tim2.disable_write(), BitWrite { value: false, ..on });
    let pulse = tim2.reset_writes();
    assert_eq!(pulse[0], BitWrite { reg: Reg::Reset(Bus::Apb1l), bit: 0, value: true });
    assert_eq!(pulse[1], BitWrite { reg: Reg::Reset(Bus::Apb1l), bit: 0, value: false });
    let (lp, am) = tim2.low_power_writes(LowPowerMode::Autonomous);
    assert_eq!(lp, BitWrite { reg: Reg::LowPower(Bus::Apb1l), bit: 0, value: true });
    assert_eq!(am, None);
    let bdma = rec.take(Peripheral::Bdma).unwrap();
    let (lp, am) = bdma.low_power_writes(LowPowerMode::Off);
    assert_eq!(lp, BitWrite { reg: Reg::LowPower(Bus::Ahb4), bit: 21, value: false });
    assert_eq!(am, Some(BitWrite { reg: Reg::Autonomous, bit: 0, value: false }));
    let (_, am) = bdma.low_power_writes(LowPowerMode::Autonomous);
    assert_eq!(am, Some(BitWrite { reg: Reg::Autonomous, bit: 0, value: true }));
}

#[test]
fn mux_plans_name_the_right_field() {
    let mut rec = Rcc::new().freeze();
    let lptim1 = rec.take(Peripheral::Lptim1).unwrap();
    assert_eq!(
        lptim1.kernel_mux_write(KernelMux::Lptim1, ClkSource::Per),
        FieldWrite { reg: Reg::KernelClock(Ccip::D2ccip2), off: 28, width: 3, code: 5 }
    );
    assert_eq!(
        rec.group_mux_write(KernelMux::Spi45, ClkSource::Hse),
        Ok(FieldWrite { reg: Reg::KernelClock(Ccip::D2ccip1), off: 16, width: 3, code: 5 })
    );
    let _spi5 = rec.take(Peripheral::Spi5).unwrap();
    assert_eq!(rec.group_mux_write(KernelMux::Spi45, ClkSource::Hse), Err(GroupLocked));
    assert_eq!(KernelMux::Spi45.read_word(5 << 16), MuxValue::Known(ClkSource::Hse));
    assert_eq!(KernelMux::Spi45.read_word(6 << 16), MuxValue::UnknownRaw(6));
}

#[test]
fn planned_writes_apply_to_a_word() {
    assert_eq!(BitWrite { reg: Reg::Autonomous, bit: 3, value: true }.apply(0x10), 0x18);
    assert_eq!(BitWrite { reg: Reg::Autonomous, bit: 4, value: false }.apply(0x18), 0x08);
    assert_eq!(BitWrite { reg: Reg::Autonomous, bit: 32, value: true }.apply(0x18), 0x18);
    let f = FieldWrite { reg: Reg::KernelClock(Ccip::D3ccip), off: 28, width: 3, code: 3 };
    assert_eq!(f.apply(0xFFFF_FFFF), 0xBFFF_FFFF);
    assert_eq!(FieldWrite { code: 8, ..f }.apply(0xFFFF_FFFF), 0xFFFF_FFFF);
    assert_eq!(FieldWrite { off: 30, ..f }.apply(0), 0);
}

#[test]
fn wide_fields_are_read_and_written() {
    assert_eq!(write_field(0, 8, 16, 0xABCD), 0x00AB_CD00);
    assert_eq!(read_field(0x00AB_CD00, 8, 16), 0xABCD);
    assert_eq!(write_field(0xFFFF_FFFF, 0, 31, 0), 0x8000_0000);
}
