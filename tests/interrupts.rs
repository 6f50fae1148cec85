use iis3dwb::device::IIS3DWB;
use iis3dwb::interrupts::{Interrupt1, InterruptConfigSrc1, InterruptSource1, INT1_SOURCE_BITS};
use iis3dwb::register::{RegisterWrite, CTRL4_C, DRDY_MASK, INT1_CTRL, INTERRUPTS_EN, INTERRUPTS_EN_ADDR};

fn config_from_index(i: u8) -> InterruptConfigSrc1 {
    InterruptConfigSrc1 {
        AccDataReady: i & 1 != 0,
        BootStatus: i & 2 != 0,
        FifoThreshold: i & 4 != 0,
        FifoOverrun: i & 8 != 0,
        FifoFull: i & 16 != 0,
        BDRCounter: i & 32 != 0,
    }
}

fn all_true() -> InterruptConfigSrc1 {
    InterruptConfigSrc1 {
        AccDataReady: true,
        BootStatus: true,
        FifoThreshold: true,
        FifoOverrun: true,
        FifoFull: true,
        BDRCounter: true,
    }
}

#[test]
fn source_masks() {
    assert_eq!(InterruptSource1::AccDataReady.raw(), 0b0000_0001);
    assert_eq!(InterruptSource1::BootStatus.raw(), 0b0000_0100);
    assert_eq!(InterruptSource1::FifoThreshold.raw(), 0b0000_1000);
    assert_eq!(InterruptSource1::FifoOverrun.raw(), 0b0001_0000);
    assert_eq!(InterruptSource1::FifoFull.raw(), 0b0010_0000);
    assert_eq!(InterruptSource1::BDRCounter.raw(), 0b0100_0000);
}

#[test]
fn decode_encode_every_config() {
    for i in 0u8..64 {
        let c = config_from_index(i);
        assert_eq!(InterruptConfigSrc1::from_raw(c.raw()), c);
    }
}

#[test]
fn encode_decode_every_byte() {
    for b in 0u16..256 {
        let b = b as u8;
        assert_eq!(InterruptConfigSrc1::from_raw(b).raw(), b & INT1_SOURCE_BITS);
        if b & 0b0010_0000 == 0 {
            assert_eq!(InterruptConfigSrc1::from_raw(b).raw(), b & 0b0101_1101);
        }
    }
}

#[test]
fn encode_decode_keeps_fifo_full_bit() {
    assert_eq!(InterruptConfigSrc1::from_raw(0b0010_0000).raw(), 0b0010_0000);
    assert_eq!(InterruptConfigSrc1::from_raw(0xFF).raw(), 0b0111_1101);
}

#[test]
fn encode_all_false() {
    assert_eq!(InterruptConfigSrc1::none().raw(), 0);
    assert_eq!(InterruptConfigSrc1::default().raw(), 0);
}

#[test]
fn encode_all_true() {
    assert_eq!(all_true().raw(), 0b0111_1101);
    assert_eq!(all_true().raw(), 1 + 4 + 8 + 16 + 32 + 64);
}

#[test]
fn decode_zero_is_default() {
    assert_eq!(InterruptConfigSrc1::from_raw(0), InterruptConfigSrc1::default());
    assert_eq!(InterruptConfigSrc1::from_raw(0), InterruptConfigSrc1::none());
}

#[test]
fn decode_single_and_two_bits() {
    let only_drdy = InterruptConfigSrc1 { AccDataReady: true, ..InterruptConfigSrc1::none() };
    assert_eq!(InterruptConfigSrc1::from_raw(0b0000_0001), only_drdy);
    let drdy_bdr = InterruptConfigSrc1 {
        AccDataReady: true,
        BDRCounter: true,
        ..InterruptConfigSrc1::none()
    };
    assert_eq!(InterruptConfigSrc1::from_raw(0b0100_0001), drdy_bdr);
}

#[test]
fn decode_each_source_bit() {
    let c = InterruptConfigSrc1::from_raw(0b0000_0100);
    assert_eq!(c, InterruptConfigSrc1 { BootStatus: true, ..InterruptConfigSrc1::none() });
    let c = InterruptConfigSrc1::from_raw(0b0000_1000);
    assert_eq!(c, InterruptConfigSrc1 { FifoThreshold: true, ..InterruptConfigSrc1::none() });
    let c = InterruptConfigSrc1::from_raw(0b0001_0000);
    assert_eq!(c, InterruptConfigSrc1 { FifoOverrun: true, ..InterruptConfigSrc1::none() });
    let c = InterruptConfigSrc1::from_raw(0b0010_0000);
    assert_eq!(c, InterruptConfigSrc1 { FifoFull: true, ..InterruptConfigSrc1::none() });
    assert_eq!(InterruptConfigSrc1::from_raw(0xFF), all_true());
}

#[test]
fn reserved_bit_ignored() {
    assert_eq!(InterruptConfigSrc1::from_raw(0b0000_0010), InterruptConfigSrc1::none());
    assert_eq!(InterruptConfigSrc1::from_raw(0b1000_0000), InterruptConfigSrc1::none());
    for b in 0u16..256 {
        let b = b as u8;
        assert_eq!(
            InterruptConfigSrc1::from_raw(b | 0b0000_0010),
            InterruptConfigSrc1::from_raw(b & !0b0000_0010)
        );
    }
}

#[test]
fn encode_never_sets_reserved_bit() {
    for i in 0u8..64 {
        assert_eq!(config_from_index(i).raw() & 0b1000_0010, 0);
    }
}

#[test]
fn interrupt1_default_has_no_source() {
    assert_eq!(Interrupt1::default().cfg, InterruptConfigSrc1::none());
}

#[test]
fn set_interrupt_1_writes_int1_ctrl() {
    let mut dev = IIS3DWB::new();
    let cfg = InterruptConfigSrc1 {
        AccDataReady: true,
        FifoFull: true,
        ..InterruptConfigSrc1::none()
    };
    dev.set_interrupt_1(Interrupt1 { cfg });
    assert_eq!(dev.take_writes(), vec![RegisterWrite { addr: INT1_CTRL, value: 0b0010_0001 }]);
    assert_eq!(INT1_CTRL, 0x0D);
}

#[test]
fn interrupt_enable_writes_in_order() {
    let mut dev = IIS3DWB::new();
    dev.enable_all_interrupts();
    dev.enable_drdy();
    dev.on_irq1();
    dev.disable_all_interrupts();
    assert_eq!(
        dev.take_writes(),
        vec![
            RegisterWrite { addr: INTERRUPTS_EN_ADDR, value: INTERRUPTS_EN },
            RegisterWrite { addr: CTRL4_C, value: DRDY_MASK },
            RegisterWrite { addr: INTERRUPTS_EN_ADDR, value: 0 },
        ]
    );
    assert_eq!(INTERRUPTS_EN, 0b1000_0000);
    assert_eq!(DRDY_MASK, 0b0000_1000);
}

#[test]
fn take_writes_leaves_none() {
    let mut dev = IIS3DWB::new();
    dev.write_reg(0x10, 0xA0);
    assert_eq!(dev.take_writes(), vec![RegisterWrite { addr: 0x10, value: 0xA0 }]);
    assert!(dev.take_writes().is_empty());
    dev.on_irq1();
    assert!(dev.take_writes().is_empty());
}
