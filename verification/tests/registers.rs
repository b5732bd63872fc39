use gba::bios::RegisterRamResetFlags;
use gba::color::Color;
use gba::display_control::{DisplayControl, VideoMode};
use gba::dma::{DmaControl, DmaDestAddr, DmaSrcAddr, DmaStart};
use gba::interrupts::{
    PhiTerminalOutput, SramFirstAccess, WaitstateControl, Waitstate0FirstAccess,
    Waitstate1FirstAccess, Waitstate2FirstAccess,
};
use gba::io::background::BGSize;
use gba::io::dma::{
    DMAControlSetting, DMADestAddressControl, DMASrcAddressControl, DMAStartTiming, DMA3,
};
use gba::io::timers::TimerTickRate;
use gba::io_registers::{in_vblank, DisplayControlMode, DisplayControlSetting};
use gba::key_input::{Keys, KeysLowActive};
use gba::keys::KeyInput;

#[test]
fn irq_bits_fields() {
    let bits = gba::irq::IrqBits::new().with_vblank(true).with_gamepak(true);
    assert_eq!(bits.0, 0x2001);
    assert!(bits.vblank());
    assert!(bits.gamepak());
    assert!(!bits.hblank());
    assert!(!bits.keypad());
    let bits = bits.with_vblank(false).with_dma2(true).with_serial(true);
    assert_eq!(bits.0, 0x2000 | 0x400 | 0x80);
    assert!(gba::irq::IrqBits(1 << 2).vcount());
    assert!(gba::irq::IrqBits(1 << 6).timer3());
    assert!(gba::irq::IrqBits(1 << 12).keypad());
}

#[test]
fn interrupt_bits_fields() {
    let bits = gba::interrupts::IrqBits::new().with_vcounter(true);
    assert_eq!(bits.to_u16(), 4);
    let bits = bits.with_keypad(true).with_timer0(true);
    assert_eq!(bits.to_u16(), 0x1000 | 0x8 | 0x4);
    assert!(bits.keypad());
    assert!(!bits.timer1());
    assert_eq!(bits.with_vcounter(false).to_u16(), 0x1008);
}

#[test]
fn waitstate_control_fields() {
    let w = WaitstateControl::new();
    assert_eq!(w.with_sram(SramFirstAccess::Cycles2).0, 2);
    assert_eq!(w.with_ws0_first_access(Waitstate0FirstAccess::Cycles8).0, 0x0C);
    assert_eq!(w.with_ws1_first_access(Waitstate1FirstAccess::Cycles3).0, 0x20);
    assert_eq!(w.with_ws2_first_access(Waitstate2FirstAccess::Cycles2).0, 0x200);
    assert_eq!(w.with_phi_terminal_output(PhiTerminalOutput::Freq16MHz).0, 0x1800);
    assert_eq!(w.with_ws0_second_access(true).0, 0x10);
    assert_eq!(w.with_game_pak_prefetch_buffer(true).0, 0x4000);
    assert_eq!(w.with_game_pak_is_cgb(true).0, 0x8000);
    assert_eq!(WaitstateControl(0x0C).ws0_first_access(), Waitstate0FirstAccess::Cycles8);
    assert_eq!(WaitstateControl(0x1000).phi_terminal_output(), PhiTerminalOutput::Freq8MHz);
    assert_eq!(WaitstateControl(0x0003).sram(), SramFirstAccess::Cycles8);
    // Replacing a field keeps the others.
    let w = WaitstateControl(0xFFFF).with_ws1_first_access(Waitstate1FirstAccess::Cycles4);
    assert_eq!(w.0, 0xFF9F);
}

#[test]
fn display_control_fields() {
    let d = DisplayControl::new().with_video_mode(VideoMode::VideoMode3).with_display_bg2(true);
    assert_eq!(u16::from(d), 0x0403);
    assert_eq!(d.video_mode(), VideoMode::VideoMode3);
    assert!(d.display_bg2());
    assert!(!d.display_obj());
    let d = DisplayControl::from(0x8000u16);
    assert!(d.display_obj_win());
    assert_eq!(d.video_mode(), VideoMode::VideoMode0);
    assert_eq!(VideoMode::default(), VideoMode::VideoMode0);
    assert_eq!(u16::from(DisplayControl::new().with_forced_blank(true)), 0x80);
}

#[test]
fn dma_control_fields() {
    let c = DmaControl::new()
        .with_dest_addr(DmaDestAddr::Fixed)
        .with_src_addr(DmaSrcAddr::Decrement)
        .with_u32_transfer(true)
        .with_start_time(DmaStart::VBlank)
        .with_enabled(true);
    assert_eq!(c.into_u16(), 0x40 | 0x80 | 0x400 | 0x1000 | 0x8000);
    assert_eq!(DmaControl::new().with_repeat(true).with_irq(true).into_u16(), 0x4200);
    assert_eq!(DmaControl::new().with_dest_addr(DmaDestAddr::IncReload).into_u16(), 0x60);
    assert_eq!(
        DmaControl::new().with_start_time(DmaStart::Special).with_start_time(DmaStart::HBlank).into_u16(),
        0x2000
    );
}

#[test]
fn dma_control_setting_fields() {
    let c = DMAControlSetting::new()
        .with_dest_address_control(DMADestAddressControl::IncrementReload)
        .with_start_timing(DMAStartTiming::HBlank)
        .with_repeat(true)
        .with_irq_at_end(true);
    assert_eq!(c.0, 0x60 | 0x2000 | 0x200 | 0x4000);
    assert!(c.repeat());
    assert!(c.irq_at_end());
    assert!(!c.enable());
    assert!(!c.transfer_u32());
    assert_eq!(c.src_address_control(), DMASrcAddressControl::Increment);
    let c = c.with_src_address_control(DMASrcAddressControl::Fixed);
    assert_eq!(c.0 & 0x180, 0x100);
    assert_eq!(DMA3::fill32_control().0, 0x100 | 0x400 | 0x8000);
    assert_eq!(DMA3::DMA3CNT_H, 0x400_00DE);
}

#[test]
fn dma_control_setting_reads_unshifted_fields() {
    let c = DMAControlSetting::new().with_start_timing(DMAStartTiming::VBlank);
    assert_eq!(c.dest_address_control(), DMADestAddressControl::Increment);
    // The timing is read through the destination mask, whose bits are clear.
    assert_eq!(c.start_timing(), DMAStartTiming::Immediate);
    assert_eq!(DMAControlSetting(0xFF9F).dest_address_control(), DMADestAddressControl::Increment);
}

#[test]
fn dma3_control_words() {
    assert_eq!(gba::dma::u32_copy_control().into_u16(), 0x8400);
    assert_eq!(gba::dma::fill_control().into_u16(), 0x8500);
}

#[test]
fn display_control_setting_modes() {
    let mut d = DisplayControlSetting(0xFFF8);
    d.set_mode(DisplayControlMode::Bitmap4);
    assert_eq!(d.0, 0xFFFC);
    assert_eq!(d.mode(), DisplayControlMode::Bitmap4);
    d.set_mode(DisplayControlMode::Tiled1);
    assert_eq!(d.0, 0xFFF9);
    assert_eq!(d.mode(), DisplayControlMode::Tiled1);
    assert!(d.display_object_window());
    let d = DisplayControlSetting::new().with_display_bg1(true).with_force_blank(true);
    assert_eq!(d.0, 0x200 | 0x80);
    assert_eq!(d.mode(), DisplayControlMode::Tiled0);
}

#[test]
fn vblank_from_vcount() {
    assert!(!in_vblank(0));
    assert!(!in_vblank(159));
    assert!(in_vblank(160));
    assert!(in_vblank(227));
}

#[test]
fn key_input_low_active() {
    // Nothing pressed: every key bit is 1.
    let k = KeyInput(0x03FF);
    assert!(!k.a() && !k.b() && !k.start() && !k.l());
    assert_eq!(k.dx(), 0);
    assert_eq!(k.dy(), 0);
    // Right and up pressed.
    let k = KeyInput(0x03FF & !(1 << 4) & !(1 << 6));
    assert!(k.right() && k.up());
    assert_eq!(k.dx(), 1);
    assert_eq!(k.dy(), 1);
    // Left and down pressed.
    let k = KeyInput(0x03FF & !(1 << 5) & !(1 << 7));
    assert_eq!(k.dx(), -1);
    assert_eq!(k.dy(), -1);
    // Right wins over left, up over down.
    let k = KeyInput(0x03FF & !(0b1111 << 4));
    assert_eq!(k.dx(), 1);
    assert_eq!(k.dy(), 1);
    assert!(KeyInput(0).a());
}

#[test]
fn keys_from_low_active() {
    let keys = Keys::from(KeysLowActive::from(0x03FF));
    assert_eq!(u16::from(keys), 0);
    let keys = Keys::from(KeysLowActive::from(0x03FE));
    assert!(keys.a());
    assert!(!keys.b());
    assert_eq!(u16::from(keys), 1);
    // The default reading (all bits low) reads as every key pressed.
    let keys = Keys::from(KeysLowActive::default());
    assert_eq!(u16::from(keys), 0x03FF);
    assert!(keys.l() && keys.r() && keys.select());
    let keys = Keys::new().with_start(true).with_down(true);
    assert_eq!(u16::from(keys), 0x8 | 0x80);
    assert!(keys.down() && !keys.up());
}

#[test]
fn color_from_rgb() {
    assert_eq!(Color::from_rgb(31, 0, 0).0, 0x001F);
    assert_eq!(Color::from_rgb(0, 31, 0).0, 0x03E0);
    assert_eq!(Color::from_rgb(0, 0, 31).0, 0x7C00);
    assert_eq!(Color::from_rgb(1, 2, 3).0, 1 | (2 << 5) | (3 << 10));
    // An out-of-range channel spills into its neighbour.
    assert_eq!(Color::from_rgb(32, 0, 0).0, 0x0020);
    assert_eq!(u16::from(Color::from(0x1234u16)), 0x1234);
}

#[test]
fn register_ram_reset_flags() {
    let f = RegisterRamResetFlags::new().with_ewram(true).with_vram(true).with_all_other_io(true);
    assert_eq!(f.to_u8(), 0x01 | 0x08 | 0x80);
    assert!(f.ewram() && f.vram() && f.all_other_io());
    assert!(!f.iwram() && !f.palram() && !f.oam() && !f.sio() && !f.sound());
    assert_eq!(f.with_vram(false).to_u8(), 0x81);
}

#[test]
fn setting_numbers() {
    assert_eq!(BGSize::Three.to_u16(), 3);
    assert_eq!(TimerTickRate::CPU1024.to_u16(), 3);
    assert_eq!(TimerTickRate::Cascade.to_u16(), 4);
    assert_eq!(DmaDestAddr::Decrement.to_u16(), 1 << 5);
    assert_eq!(DmaSrcAddr::Fixed.to_u16(), 2 << 7);
    assert_eq!(DmaStart::VBlank.to_u16(), 1 << 12);
    assert_eq!(VideoMode::VideoMode5.to_u16(), 5);
    assert_eq!(SramFirstAccess::Cycles3.to_u16(), 1);
    assert_eq!(Waitstate2FirstAccess::Cycles8.to_u16(), 3 << 8);
    assert_eq!(PhiTerminalOutput::Freq4MHz.to_u16(), 1 << 11);
}
