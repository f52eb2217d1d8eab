use bcm2711_hal::eth::control_block::ControlBlock;
use bcm2711_hal::eth::dma::{
    pad_frame, split_address, tx_frame_length, tx_wait_step, DmaRings, RxDescStatus, RxFrame,
    TxWait,
};
use bcm2711_hal::eth::intr::first_tx_queue_irq;
use bcm2711_hal::eth::mdio::{MiiBmsr, MiiLpa, MiiStat1000, Register};
use bcm2711_hal::eth::mii::{umac_speed_code, LinkHistory};
use bcm2711_hal::eth::phy::phy_status;
use bcm2711_hal::eth::rx_ring::RxRing;
use bcm2711_hal::eth::tx_ring::TxRing;
use bcm2711_hal::eth::umac::{check_hw_version, mdf_ctrl_value};
use bcm2711_hal::eth::{Descriptor, Error, EthernetAddress, PhyStatus, RxPacket};

#[test]
fn ethernet_address_text_and_conversions() {
    let a = EthernetAddress([0xDC, 0xA6, 0x32, 0x00, 0x0A, 0xFF]);
    assert_eq!(a.to_string(), "DC:A6:32:00:0A:FF");
    assert_eq!(EthernetAddress::broadcast().to_string(), "FF:FF:FF:FF:FF:FF");
    let octets: [u8; 6] = a.into();
    assert_eq!(EthernetAddress::from(octets), a);
    assert!(a != EthernetAddress::broadcast());
}

#[test]
fn zeroed_buffers_and_rings() {
    let d = Descriptor::zero();
    let mut cb = ControlBlock::zero();
    let _ = (d, &mut cb);
    let _ = RxRing::zero();
    let _ = TxRing::zero();
}

#[test]
fn rx_packet_length_drops_pad() {
    let mut d = Descriptor::zero();
    let p = RxPacket::new(&mut d, 64);
    assert_eq!(p.len(), 62);
    assert_eq!(p.payload().len(), p.len());
    assert!(p.payload().iter().all(|b| *b == 0));
    let full = RxPacket::new(&mut d, 2048);
    assert_eq!(full.payload().len(), 2046);
}

#[test]
fn phy_status_from_registers() {
    // Link down
    assert_eq!(
        phy_status(0, 0, 0, 0, 0),
        Ok(PhyStatus { link_status: false, speed: 0, full_duplex: false, pause: false })
    );
    // Master/slave resolution failure
    assert_eq!(phy_status(1 << 2, 1 << 15, 0, 0, 0), Err(Error::HwError));
    // Gigabit full duplex with pause
    assert_eq!(
        phy_status(1 << 2, 1 << 11, 1 << 9, 1 << 10, 0),
        Ok(PhyStatus { link_status: true, speed: 1000, full_duplex: true, pause: true })
    );
    // 100 Mbit/s half duplex
    assert_eq!(
        phy_status(1 << 2, 0, 0, 1 << 7, 1 << 7),
        Ok(PhyStatus { link_status: true, speed: 100, full_duplex: false, pause: false })
    );
    // Nothing in common: 10 Mbit/s
    assert_eq!(
        phy_status(1 << 2, 0, 0, 1 << 6, 1 << 6),
        Ok(PhyStatus { link_status: true, speed: 10, full_duplex: true, pause: false })
    );
}

#[test]
fn mii_register_bits() {
    assert!(MiiBmsr::from(4).link_status());
    assert!(MiiLpa::from(1 << 8).lpa_100_full());
    assert!(!MiiLpa::from(1 << 8).lpa_100_half());
    assert!(MiiLpa::from(1 << 5).lpa_10_half());
    assert!(MiiStat1000::from(1 << 10).lpa_1000_half());
    assert_eq!(Register::MiiStat1000.number(), 0x0A);
    assert_eq!(Register::MiiBmsr.number(), 0x01);
}

#[test]
fn link_history_reprograms_on_change_only() {
    let mut h = LinkHistory::new();
    let up = PhyStatus { link_status: true, speed: 1000, full_duplex: true, pause: false };
    assert!(h.update(&up));
    assert!(!h.update(&up));
    let slower = PhyStatus { speed: 100, ..up };
    assert!(h.update(&slower));
    let down = PhyStatus { link_status: false, speed: 0, full_duplex: false, pause: false };
    assert!(!h.update(&down));
    assert_eq!(h.old_link_status, Some(false));
    assert_eq!(h.old_speed, Some(100));
    assert_eq!(umac_speed_code(1000), 2);
    assert_eq!(umac_speed_code(100), 1);
    assert_eq!(umac_speed_code(10), 0);
}

#[test]
fn rx_ring_steps() {
    let mut rings = DmaRings::new(2);
    let good = RxDescStatus { len: 66, error: false, eop: true, sop: true };
    assert_eq!(rings.rx_step(0, good), Err(Error::WouldBlock));
    assert_eq!(rings.rx_step(1, good), Ok(RxFrame { desc_index: 0, length: 66 }));
    assert_eq!((rings.c_index(), rings.rx_index()), (1, 1));
    let frag = RxDescStatus { sop: false, ..good };
    assert_eq!(rings.rx_step(5, frag), Err(Error::Fragmented));
    assert_eq!((rings.c_index(), rings.rx_index()), (2, 0));
    let bad = RxDescStatus { error: true, ..good };
    assert_eq!(rings.rx_step(5, bad), Err(Error::HwDescError));
    let empty = RxDescStatus { len: 0, ..good };
    assert_eq!(rings.rx_step(5, empty), Err(Error::Malformed));
    assert_eq!(rings.c_index(), 4);
}

#[test]
fn tx_frames() {
    assert_eq!(tx_frame_length(1537), Err(Error::Exhausted));
    assert_eq!(tx_frame_length(20), Ok(60));
    assert_eq!(tx_frame_length(1000), Ok(1000));
    let mut buf = [0xAAu8; 2048];
    assert_eq!(pad_frame(&mut buf, 20), 60);
    assert_eq!(buf[19], 0xAA);
    assert!(buf[20..60].iter().all(|b| *b == 0));
    assert_eq!(buf[60], 0xAA);
    let mut rings = DmaRings::new(3);
    assert_eq!(rings.tx_advance(), 0);
    assert_eq!(rings.tx_advance(), 1);
    assert_eq!(rings.tx_advance(), 2);
    assert_eq!(rings.tx_index(), 0);
    assert_eq!(tx_wait_step(5, 5, 100), TxWait::Done);
    assert_eq!(tx_wait_step(4, 5, 100), TxWait::Retry(99));
    assert_eq!(tx_wait_step(4, 5, 1), TxWait::TimedOut);
}

#[test]
fn addresses_and_registers() {
    assert_eq!(split_address(0x0000_0001_8000_0040), (0x8000_0040, 0x1));
    assert_eq!(check_hw_version(6, 0, 0), Ok(()));
    assert_eq!(check_hw_version(5, 0, 0), Err(Error::HwVersionNotSupported));
    assert_eq!(check_hw_version(6, 1, 0), Err(Error::HwVersionNotSupported));
    assert_eq!(check_hw_version(6, 0x100, 0), Ok(()));
    assert_eq!(mdf_ctrl_value(0, 17, 0), 1 << 17);
    assert_eq!(mdf_ctrl_value(1 << 17, 17, 1), (1 << 17) | (1 << 16));
    assert_eq!(first_tx_queue_irq(0b1100, 4), Some(2));
    assert_eq!(first_tx_queue_irq(0b1_0000, 4), None);
}

#[test]
fn rx_packet_copies_payload() {
    let mut d = Descriptor::zero();
    let p = RxPacket::new(&mut d, 10);
    let mut pkt = [0xAAu8; 12];
    assert_eq!(p.copy_payload(&mut pkt), Ok(8));
    assert_eq!(pkt, [0, 0, 0, 0, 0, 0, 0, 0, 0xAA, 0xAA, 0xAA, 0xAA]);
    let mut small = [0xAAu8; 7];
    assert_eq!(p.copy_payload(&mut small), Err(Error::Exhausted));
    assert_eq!(small, [0xAAu8; 7]);
}
