use bcm2711_hal::dma::{
    cached_range_start, channel_errors, check_transfer, dcb_bus_address, ControlBlock,
    TransferError, TransferLength, TransferWidth, TxfrInfoWord, TxfrLenWord,
};

#[test]
fn control_block_addresses_use_coherent_alias() {
    let mut cb = ControlBlock::new();
    cb.set_src(0x0010_0000);
    cb.set_dest(0x0020_0000);
    cb.set_next(0x0030_0000);
    assert_eq!(cb.src, 0x4010_0000);
    assert_eq!(cb.dest, 0x4020_0000);
    assert_eq!(cb.next, 0x4030_0000);
    cb.init();
    assert_eq!((cb.src, cb.dest, cb.next, cb.info.0, cb.length.0), (0, 0, 0, 0, 0));
}

#[test]
fn control_block_lengths() {
    let mut cb = ControlBlock::new();
    cb.set_length(TransferLength::ModeLinear(0x1234_5678));
    assert_eq!(cb.length.0, 0x1234_5678);
    assert!(!cb.info.td_mode());
    let mut cb = ControlBlock::new();
    cb.set_length(TransferLength::Mode2D(0x0102, 0xFFFF));
    assert_eq!(cb.length.xlen(), 0x0102);
    // The Y length has 14 bits
    assert_eq!(cb.length.ylen(), 0x3FFF);
    assert!(cb.info.td_mode());
    assert_eq!(cb.info.0, 0x2);
}

#[test]
fn control_block_widths() {
    let mut cb = ControlBlock::new();
    assert_eq!(cb.src_width(), TransferWidth::Bits32);
    cb.set_src_width(TransferWidth::Bits128);
    assert_eq!(cb.src_width(), TransferWidth::Bits128);
    assert_eq!(cb.dest_width(), TransferWidth::Bits32);
    assert_eq!(cb.info.0, 1 << 9);
    cb.set_dest_width(TransferWidth::Bits128);
    assert_eq!(cb.info.0, (1 << 9) | (1 << 5));
    cb.set_src_width(TransferWidth::Bits32);
    assert_eq!(cb.info.0, 1 << 5);
    assert!(bool::from(TransferWidth::Bits128));
}

#[test]
fn info_word_fields() {
    let mut w = TxfrInfoWord(0);
    w.set_burst_len(0xF);
    w.set_periph_map(0x1F);
    w.set_waits(3);
    assert_eq!(w.0, (0xF << 12) | (0x1F << 16) | (3 << 21));
    assert_eq!(w.burst_len(), 0xF);
    w.set_burst_len(0x12);
    // Only the low four bits fit
    assert_eq!(w.burst_len(), 0x2);
    assert_eq!(w.periph_map(), 0x1F);
    w.set_int_en(true);
    assert!(w.int_en());
    w.set_no_wide_bursts(true);
    assert_eq!(w.0 >> 26, 1);
    let mut l = TxfrLenWord(0xFFFF_FFFF);
    l.set_xlen(0);
    assert_eq!(l.0, 0xFFFF_0000);
}

#[test]
fn control_block_text() {
    let mut cb = ControlBlock::new();
    cb.set_src(0x1000);
    cb.set_length(TransferLength::ModeLinear(0xABC));
    assert_eq!(
        cb.to_string(),
        "DCB { info: 0x0, src: 0x40001000, dest: 0x0, length: 0xABC, stride: 0x0, next: 0x0 }"
    );
}

#[test]
fn transfer_checks_in_order() {
    let mut cb = ControlBlock::new();
    assert_eq!(check_transfer(&cb, 0x1010, false, false, false), Err(TransferError::UnalignedControlBlock));
    assert_eq!(check_transfer(&cb, 0x1000, false, false, false), Err(TransferError::NullSource));
    cb.set_src(0x1000);
    assert_eq!(check_transfer(&cb, 0x1000, false, false, false), Err(TransferError::NullDestination));
    cb.set_dest(0x2000);
    cb.set_length(TransferLength::ModeLinear(0x1_0000));
    assert_eq!(check_transfer(&cb, 0x1000, true, false, false), Err(TransferError::LiteTooLong));
    assert_eq!(check_transfer(&cb, 0x1000, false, true, true), Ok(()));
    cb.set_length(TransferLength::ModeLinear(0x4000_0000));
    assert_eq!(check_transfer(&cb, 0x1000, false, false, false), Err(TransferError::TooLong));
    cb.set_length(TransferLength::Mode2D(4, 4));
    assert_eq!(check_transfer(&cb, 0x1000, true, false, false), Err(TransferError::Lite2D));
    assert_eq!(check_transfer(&cb, 0x1000, false, false, true), Err(TransferError::Cached2D));
    assert_eq!(dcb_bus_address(0x1000), 0x4000_1000);
    assert_eq!(cached_range_start(0x4000_2000), 0x2000);
}

#[test]
fn channel_error_flags() {
    assert!(!channel_errors(false, false, false, false, 0));
    assert!(channel_errors(false, false, false, false, 2));
    assert!(channel_errors(false, true, false, false, 0));
}
