use otg_fs::clock::{ahb2enr_usb_enabled, AHB2ENR_OTGFSEN};
use otg_fs::delay::delay_spin_count;
use otg_fs::fifo::{
    fifo_address, fifo_address_checked, fifo_read, fifo_read_into, fifo_write, FIFO_OFFSET,
    FIFO_SIZE, OTG_FS_BASE,
};
use vcell::VolatileCell;

#[test]
fn fifo_address_per_channel() {
    for channel in 0..=15usize {
        assert_eq!(
            fifo_address(channel),
            OTG_FS_BASE + FIFO_OFFSET + channel * FIFO_SIZE
        );
    }
    assert_eq!(fifo_address(0), 0x5000_1000);
    assert_eq!(fifo_address(2), 0x5000_3000);
    assert_eq!(fifo_address(15), 0x5001_0000);
}

#[test]
fn fifo_address_checked_rejects_out_of_range_channel() {
    assert_eq!(fifo_address_checked(15), Some(0x5001_0000));
    assert_eq!(fifo_address_checked(16), None);
    assert_eq!(fifo_address_checked(usize::MAX), None);
}

#[test]
fn fifo_write_stores_packed_words() {
    let port = VolatileCell::new(0u32);
    fifo_write(&port, &[0x01, 0x02, 0x03, 0x04]);
    assert_eq!(port.get(), 0x0403_0201);

    // Two word accesses for five bytes: the second, zero-padded word is the
    // one left in the port cell afterwards.
    fifo_write(&port, &[0x01, 0x02, 0x03, 0x04, 0x05]);
    assert_eq!(port.get(), 0x0000_0005);
}

#[test]
fn fifo_write_empty_buffer_touches_nothing() {
    let port = VolatileCell::new(0x1234_5678u32);
    fifo_write(&port, &[]);
    assert_eq!(port.get(), 0x1234_5678);
}

#[test]
fn fifo_read_unpacks_loaded_words() {
    let port = VolatileCell::new(0xAABB_CCDDu32);
    let mut buf = vec![0u8; 4];
    fifo_read(&port, &mut buf);
    assert_eq!(buf, vec![0xDD, 0xCC, 0xBB, 0xAA]);
}

#[test]
fn fifo_read_partial_group_keeps_leading_bytes() {
    let port = VolatileCell::new(0xAABB_CCDDu32);
    let mut buf = vec![0u8; 3];
    fifo_read(&port, &mut buf);
    assert_eq!(buf, vec![0xDD, 0xCC, 0xBB]);
}

#[test]
fn fifo_read_costs_one_load_per_group() {
    // The port cell holds the same word for every load, so a six-byte read,
    // two loads, sees that word twice.
    let port = VolatileCell::new(0x4433_2211u32);
    let mut buf = vec![0u8; 6];
    fifo_read(&port, &mut buf);
    assert_eq!(buf, vec![0x11, 0x22, 0x33, 0x44, 0x11, 0x22]);
}

#[test]
fn fifo_read_into_fills_each_cell() {
    let port = VolatileCell::new(0x0BAD_F00Du32);
    let buf = [
        VolatileCell::new(0u32),
        VolatileCell::new(0u32),
        VolatileCell::new(0u32),
    ];
    fifo_read_into(&port, &buf);
    assert_eq!(buf[0].get(), 0x0BAD_F00D);
    assert_eq!(buf[1].get(), 0x0BAD_F00D);
    assert_eq!(buf[2].get(), 0x0BAD_F00D);
}

#[test]
fn usb_enable_sets_bit_seven_only() {
    assert_eq!(AHB2ENR_OTGFSEN, 1 << 7);
    assert_eq!(ahb2enr_usb_enabled(0), 0x80);
    assert_eq!(ahb2enr_usb_enabled(0xFFFF_FF7F), 0xFFFF_FFFF);
    assert_eq!(ahb2enr_usb_enabled(0x0000_0041), 0x0000_00C1);
}

#[test]
fn usb_enable_idempotent() {
    for value in [0u32, 0x80, 0x41, 0xFFFF_FFFF, 0xDEAD_BEEF] {
        let once = ahb2enr_usb_enabled(value);
        let twice = ahb2enr_usb_enabled(once);
        assert_eq!(twice, once);
    }
}

#[test]
fn delay_spin_count_values() {
    assert_eq!(delay_spin_count(0), 1);
    assert_eq!(delay_spin_count(3), 1);
    assert_eq!(delay_spin_count(4), 2);
    assert_eq!(delay_spin_count(100), 26);
    assert_eq!(delay_spin_count(u32::MAX), u32::MAX / 4 + 1);
}
