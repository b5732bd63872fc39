use gba::align4::Align4;
use gba::builtins::__clzsi2;
use gba::core_extras::{VolAddress, VolAddressBlock};
use gba::mmio_addresses::mode3::{bitmap, bitmap_xy, wide_color, HEIGHT, MODE3_WORD_COUNT, WIDTH};
use gba::sio::{BaudRate, SioControlSetting, SioSerial, SioStatus};

#[test]
fn clzsi2_counts_leading_zeros() {
    for x in [0usize, 1, 2, 3, 0xFF, 0x100, 0x8000, 0xFFFF, 0x1_0000, 0x7FFF_FFFF, 0x8000_0000, 0xFFFF_FFFF] {
        assert_eq!(__clzsi2(x), (x as u32).leading_zeros() as usize, "x = {x:#x}");
    }
    assert_eq!(__clzsi2(0), 32);
    assert_eq!(__clzsi2(1), 31);
}

#[test]
fn clzsi2_above_32_bits() {
    if usize::BITS > 32 {
        let big: u64 = 1 << 40;
        assert_eq!(__clzsi2(big as usize), 0);
    }
}

#[test]
fn align4_as_u16_u32_slice() {
    let a = Align4([0u8, 1, 2, 3]);
    assert_eq!(a.as_u16_slice(), vec![0x100_u16.to_le(), 0x302_u16.to_le()]);
    assert_eq!(a.as_u32_slice(), vec![0x3020100_u32.to_le()]);
}

#[test]
fn align4_longer() {
    let a = Align4([0x78u8, 0x56, 0x34, 0x12, 0xEF, 0xBE, 0xAD, 0xDE]);
    assert_eq!(a.as_u32_slice(), vec![0x1234_5678, 0xDEAD_BEEF]);
    assert_eq!(a.as_u16_slice(), vec![0x5678, 0x1234, 0xBEEF, 0xDEAD]);
    let empty = Align4([0u8; 0]);
    assert!(empty.as_u32_slice().is_empty());
}

#[test]
fn vol_address_arithmetic() {
    let a = VolAddress::<u16>::new_unchecked(0x0400_0000);
    assert_eq!(a.address(), 0x0400_0000);
    assert_eq!(a.offset(3).address(), 0x0400_0006);
    assert_eq!(a.offset(-1).address(), 0x0400_0000 - 2);
    assert!(a.is_aligned());
    assert!(!VolAddress::<u32>::new_unchecked(0x0400_0002).is_aligned());
    assert_eq!(a.cast::<u32>().offset(1).address(), 0x0400_0004);
}

#[test]
fn vol_address_iteration() {
    let a = VolAddress::<u32>::new_unchecked(0x0600_0000);
    let mut it = a.iter_slots(3);
    assert_eq!(it.next().map(|v| v.address()), Some(0x0600_0000));
    assert_eq!(it.next().map(|v| v.address()), Some(0x0600_0004));
    assert_eq!(it.next().map(|v| v.address()), Some(0x0600_0008));
    assert!(it.next().is_none());
    assert!(it.next().is_none());
}

#[test]
fn vol_address_block() {
    let block = VolAddressBlock::new_unchecked(VolAddress::<u16>::new_unchecked(0x0500_0000), 4);
    assert_eq!(block.clone().index(2).address(), 0x0500_0004);
    assert_eq!(block.clone().get(3).map(|v| v.address()), Some(0x0500_0006));
    assert!(block.clone().get(4).is_none());
    assert!(block == block.clone());
    let mut it = block.iter();
    let mut n = 0;
    while let Some(v) = it.next() {
        assert_eq!(v.address(), 0x0500_0000 + 2 * n);
        n += 1;
    }
    assert_eq!(n, 4);
}

#[test]
fn sio_init_settings() {
    let (rcnt, siocnt) = SioSerial::init(BaudRate::Bps115200);
    assert_eq!(rcnt.0, 0);
    assert_eq!(siocnt.0, 0x3D83);
    let (_, siocnt) = SioSerial::init(BaudRate::Bps9600);
    assert_eq!(siocnt.0, 0x3D80);
    assert!(siocnt.data_length_8bit() && siocnt.fifo_enable() && siocnt.rx_enable() && siocnt.tx_enable());
    assert_eq!(siocnt.baud_rate(), BaudRate::Bps9600);
}

#[test]
fn sio_status() {
    assert!(matches!(SioSerial::read_status(SioControlSetting(0x40 | 0x20)), SioStatus::Failed(_)));
    assert!(matches!(SioSerial::read_status(SioControlSetting(0x20)), SioStatus::WouldBlock));
    assert!(matches!(SioSerial::read_status(SioControlSetting(0x10)), SioStatus::Ready));
    assert!(matches!(SioSerial::flush_status(SioControlSetting(0x10)), SioStatus::WouldBlock));
    assert!(matches!(SioSerial::flush_status(SioControlSetting(0x40)), SioStatus::Failed(_)));
    assert!(matches!(SioSerial::flush_status(SioControlSetting(0x20)), SioStatus::Ready));
}

#[test]
fn vol_address_compare() {
    let a = VolAddress::<u8>::new_unchecked(0x10);
    let b = VolAddress::<u8>::new_unchecked(0x20);
    assert!(a == a.clone());
    assert!(a != b);
    assert!(a < b);
    assert_eq!(a.partial_cmp(&b), Some(core::cmp::Ordering::Less));
    assert_eq!(b.partial_cmp(&a), Some(core::cmp::Ordering::Greater));
    assert_eq!(a.partial_cmp(&a), Some(core::cmp::Ordering::Equal));
    let it = a.iter_slots(2);
    let mut other = it.clone();
    assert!(it == other);
    other.next();
    assert!(it != other);
}

#[test]
fn palette_banks() {
    let bank = gba::mmio::bg_palbank(1);
    let mut it = bank.iter();
    assert_eq!(it.next().map(|a| a.address()), Some(0x0500_0020));
    let bank = gba::mmio::obj_palbank(15);
    assert_eq!(bank.clone().index(15).address(), 0x0500_03FE);
    assert!(bank.get(16).is_none());
    assert_eq!(gba::mmio::bg_palbank(0).index(0).address(), 0x0500_0000);
}

#[test]
fn mode3_bitmap() {
    assert_eq!(bitmap_xy(0, 0).address(), 0x0600_0000);
    assert_eq!(bitmap_xy(1, 1).address(), 0x0600_0000 + 2 * 241);
    assert_eq!(bitmap_xy(239, 159).address(), 0x0600_0000 + 2 * (240 * 160 - 1));
    assert_eq!(bitmap().get(WIDTH * HEIGHT).map(|a| a.address()), None);
    assert_eq!(MODE3_WORD_COUNT as usize, WIDTH * HEIGHT * 2 / 4);
    assert_eq!(wide_color(gba::color::Color(0x1234)), 0x1234_1234);
    assert_eq!(wide_color(gba::color::Color(0x8001)), 0x8001_8001);
}
