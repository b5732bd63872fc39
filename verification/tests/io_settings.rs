use gba::io::color_blend::{AlphaBlendingSetting, BrightnessSetting, ColorEffectSetting, ColorSpecialEffect};
use gba::io::display::{
    in_vblank, DisplayControlSetting, DisplayMode, DisplayStatusSetting, MosaicSetting,
};
use gba::io::irq::{IrqEnableSetting, IrqFlags};
use gba::io::sound::{
    FrequencyControlSetting, NumberSoundVolume, SoundMasterSetting, SweepRegisterSetting,
    WaveVolumeEnableSetting,
};
use gba::io::timers::{TimerControlSetting, TimerTickRate};
use gba::io::window::{HorizontalWindowSetting, InsideWindowSetting, OutsideWindowSetting};
use gba::sio::{IoControlSetting, IoMode};

#[test]
fn irq_flags_fields() {
    let f = IrqFlags::new().with_vblank(true).with_game_pak(true);
    assert_eq!(f.0, 0x2001);
    assert!(f.vblank() && f.game_pak() && !f.serial());
    assert_eq!(IrqFlags::VBLANK_BIT, 1);
    assert_eq!(IrqFlags::GAME_PAK_BIT, 0x2000);
    assert_eq!(f.with_vblank(false).0, 0x2000);
    assert_eq!(IrqEnableSetting::new().with_interrupts_enabled(true).0, 1);
}

#[test]
fn io_display_control() {
    let d = DisplayControlSetting::new().with_mode(DisplayMode::Mode3).with_bg2(true);
    assert_eq!(d.0, 0x0403);
    assert_eq!(d.mode(), DisplayMode::Mode3);
    assert!(d.bg2() && !d.obj_window());
    assert_eq!(DisplayControlSetting::MODE_MASK, 0b111);
    assert_eq!(DisplayControlSetting(0xFFFD).mode(), DisplayMode::Mode5);
    assert_eq!(DisplayControlSetting(0xFFFF).with_mode(DisplayMode::Mode0).0, 0xFFF8);
    assert!(!in_vblank(159));
    assert!(in_vblank(160));
}

#[test]
fn io_display_status_and_mosaic() {
    let s = DisplayStatusSetting::new().with_vcount_setting(0x9F).with_vblank_irq_enable(true);
    assert_eq!(s.0, 0x9F08);
    assert_eq!(s.vcount_setting(), 0x9F);
    // Bits that do not fit in the field are dropped.
    assert_eq!(DisplayStatusSetting::new().with_vcount_setting(0x1FF).0, 0xFF00);
    let m = MosaicSetting::new().with_obj_vertical_inc(0xF).with_bg_horizontal_inc(3);
    assert_eq!(m.0, 0xF003);
    assert_eq!(m.obj_vertical_inc(), 0xF);
    assert_eq!(m.bg_vertical_inc(), 0);
}

#[test]
fn timer_control() {
    let t = TimerControlSetting::new().with_tick_rate(TimerTickRate::Cascade).with_enabled(true);
    assert_eq!(t.0, 0x84);
    assert_eq!(t.tick_rate(), TimerTickRate::Cascade);
    assert_eq!(TimerControlSetting(0x43).tick_rate(), TimerTickRate::CPU1024);
    assert!(TimerControlSetting(0x40).overflow_irq());
}

#[test]
fn blend_settings() {
    let c = ColorEffectSetting::new()
        .with_color_special_effect(ColorSpecialEffect::BrightnessDecrease)
        .with_bg0_1st_target_pixel(true)
        .with_backdrop_2nd_target_pixel(true);
    assert_eq!(c.0, 0xC0 | 0x01 | 0x2000);
    assert_eq!(c.color_special_effect(), ColorSpecialEffect::BrightnessDecrease);
    assert_eq!(ColorEffectSetting(0x40).color_special_effect(), ColorSpecialEffect::AlphaBlending);
    let a = AlphaBlendingSetting::new().with_eva_coefficient(16).with_evb_coefficient(4);
    assert_eq!(a.0, 0x0410);
    assert_eq!(BrightnessSetting::new().with_evy_coefficient(31).0, 31);
    assert_eq!(BrightnessSetting::new().with_evy_coefficient(32).0, 0);
}

#[test]
fn window_settings() {
    assert_eq!(InsideWindowSetting::new().with_win1_obj(true).0, 0x1000);
    assert_eq!(OutsideWindowSetting::new().with_obj_win_bg3(true).0, 0x0800);
    let h = HorizontalWindowSetting::new().with_col_start(10).with_col_end(200);
    assert_eq!(h.0, (10 << 8) | 200);
    assert_eq!(h.col_start(), 10);
}

#[test]
fn sound_settings() {
    let w = WaveVolumeEnableSetting::new().with_sound_number_volume(NumberSoundVolume::Full);
    assert_eq!(w.0, 2);
    assert_eq!(w.sound_number_volume(), NumberSoundVolume::Full);
    assert_eq!(FrequencyControlSetting::new().with_is_initial(true).with_frequency(0x7FF).0, 0x87FF);
    assert_eq!(SweepRegisterSetting::new().with_sweep_time(7).0, 0x70);
    // The bias level field is bits 1-9.
    assert_eq!(SoundMasterSetting::new().with_bias_level(0x100).0, 0x200);
    assert_eq!(SoundMasterSetting::new().with_bias_level(0x200).0, 0);
    assert_eq!(SoundMasterSetting(0x3FE).bias_level(), 0x1FF);
}

#[test]
fn io_mode_reads_by_position() {
    let gpio = IoControlSetting::new().with_mode(IoMode::GPIO);
    // GPIO is written as 2, which reads back as the third mode.
    assert_eq!(gpio.0, 0x8000);
    assert_eq!(gpio.mode(), IoMode::JoyBus);
    assert_eq!(IoControlSetting(0x4000).mode(), IoMode::GPIO);
    assert_eq!(IoControlSetting::new().with_mode(IoMode::Disabled).mode(), IoMode::Disabled);
}
