use lynx_core::AudioPacer;
use lynx_core::HostButtons;
use lynx_core::LoadError;
use lynx_core::MemoryKind;
use lynx_core::RefreshRate;
use lynx_core::Rotation;
use lynx_core::Session;
use lynx_core::apply_restore;
use lynx_core::core_name;
use lynx_core::host_rotation_code;
use lynx_core::joystick_bits;
use lynx_core::memory_kind;
use lynx_core::memory_region_backed;
use lynx_core::memory_region_size;
use lynx_core::poll_decision;
use lynx_core::snapshot_size;
use lynx_core::switches_after;
use lynx_core::ticks_per_audio_sample;
use lynx_core::valid_extensions;
use lynx_core::xrgb_pixel;
use lynx_core::DEFAULT_FPS_CODE;
use lynx_core::FRAME_BUFFER_LENGTH;

fn all_released() -> HostButtons {
    HostButtons {
        up: false,
        down: false,
        left: false,
        right: false,
        option_1: false,
        option_2: false,
        inside: false,
        outside: false,
        pause: false,
    }
}

#[test]
fn ticks_per_sample_is_725() {
    assert_eq!(ticks_per_audio_sample(), 725);
    assert_eq!(16_000_000 / 22_050, 725);
}

#[test]
fn frame_of_14500_cycles_emits_20_samples() {
    let mut pacer = AudioPacer::new();
    let samples = pacer.advance(14_500);
    assert_eq!(samples, 20);
    assert_eq!(pacer.ticks, 0);
}

#[test]
fn stepping_14500_cycles_emits_20_samples() {
    let mut pacer = AudioPacer::new();
    let mut samples: u64 = 0;
    for _ in 0..14_500 {
        if pacer.step() {
            samples += 1;
        }
    }
    assert_eq!(samples, 20);
    assert_eq!(pacer.ticks, 0);
}

#[test]
fn samples_are_floor_of_cycles_over_interval() {
    let mut pacer = AudioPacer::new();
    assert_eq!(pacer.advance(1_000), 1);
    assert_eq!(pacer.ticks, 275);
    assert_eq!(pacer.advance(200), 0);
    assert_eq!(pacer.ticks, 475);
    assert_eq!(pacer.advance(250), 1);
    assert_eq!(pacer.ticks, 0);
}

#[test]
fn zero_cycle_frame_emits_nothing_and_keeps_counter() {
    let mut pacer = AudioPacer::new();
    pacer.advance(300);
    assert_eq!(pacer.advance(0), 0);
    assert_eq!(pacer.ticks, 300);
}

#[test]
fn joystick_bits_follow_the_fixed_table() {
    let mut b = all_released();
    assert_eq!(joystick_bits(&b), 0x00);
    b.up = true;
    assert_eq!(joystick_bits(&b), 0x80);
    b.up = false;
    b.down = true;
    assert_eq!(joystick_bits(&b), 0x40);
    b.down = false;
    b.left = true;
    assert_eq!(joystick_bits(&b), 0x20);
    b.left = false;
    b.right = true;
    assert_eq!(joystick_bits(&b), 0x10);
    b.right = false;
    b.option_1 = true;
    assert_eq!(joystick_bits(&b), 0x08);
    b.option_1 = false;
    b.option_2 = true;
    assert_eq!(joystick_bits(&b), 0x04);
    b.option_2 = false;
    b.inside = true;
    assert_eq!(joystick_bits(&b), 0x02);
    b.inside = false;
    b.outside = true;
    assert_eq!(joystick_bits(&b), 0x01);
}

#[test]
fn pause_bit_leaves_other_switch_bits_alone() {
    assert_eq!(switches_after(0x06, true), 0x07);
    assert_eq!(switches_after(0x07, false), 0x06);
    assert_eq!(switches_after(0x00, true), 0x01);
    assert_eq!(switches_after(0x01, true), 0x01);
}

#[test]
fn second_poll_without_host_change_writes_nothing() {
    let mut pressed = all_released();
    pressed.up = true;
    pressed.outside = true;
    pressed.pause = true;

    let first = poll_decision(&pressed, 0x00, 0x02);
    assert_eq!(first.joystick, Some(0x81));
    assert_eq!(first.switches, Some(0x03));

    let second = poll_decision(&pressed, first.joystick.unwrap(), first.switches.unwrap());
    assert_eq!(second.joystick, None);
    assert_eq!(second.switches, None);
}

#[test]
fn unchanged_poll_writes_nothing_at_all() {
    let pressed = all_released();
    let w = poll_decision(&pressed, 0x00, 0x00);
    assert_eq!(w.joystick, None);
    assert_eq!(w.switches, None);
}

#[test]
fn rejected_cartridge_constructs_no_session() {
    assert!(Session::load_game(true, true, false, Rotation::Zero).is_err());
    assert!(Session::load_game(true, false, true, Rotation::Zero).is_err());
    assert!(Session::load_game(false, true, true, Rotation::Zero).is_err());
    assert_eq!(
        Session::load_game(true, true, false, Rotation::Zero).err(),
        Some(LoadError)
    );
}

#[test]
fn successful_load_starts_with_defaults() {
    let Ok(session) = Session::load_game(true, true, true, Rotation::Ninety) else {
        panic!("load failed");
    };
    assert_eq!(session.pacer.ticks, 0);
    assert_eq!(session.refresh.code, DEFAULT_FPS_CODE);
    assert_eq!(session.rotation, Rotation::Ninety);
    assert_eq!(session.frame_buffer.len(), FRAME_BUFFER_LENGTH);
    assert!(session.frame_buffer.iter().all(|px| *px == 0));
}

#[test]
fn default_rate_code_is_75_fps() {
    assert_eq!(DEFAULT_FPS_CODE, 75f64.to_bits());
}

#[test]
fn refresh_drift_republishes_exactly_once() {
    let mut refresh = RefreshRate::new();
    assert_eq!(refresh.observe(DEFAULT_FPS_CODE), None);

    let new_rate = 59.9f64.to_bits();
    let published = refresh.observe(new_rate).expect("drift must republish");
    assert_eq!(published.fps_code, new_rate);
    assert_eq!(published.width, 160);
    assert_eq!(published.height, 102);
    assert_eq!(published.sample_rate, 22_050);

    assert_eq!(refresh.observe(new_rate), None);
}

#[test]
fn av_info_reports_published_timing() {
    let Ok(mut session) = Session::load_game(true, true, true, Rotation::Zero) else {
        panic!("load failed");
    };
    let info = session.system_av_info();
    assert_eq!(info.width, 160);
    assert_eq!(info.height, 102);
    assert_eq!(info.fps_code, DEFAULT_FPS_CODE);
    assert_eq!(info.sample_rate, 22_050);

    let new_rate = 60f64.to_bits();
    session.check_refresh(new_rate);
    assert_eq!(session.system_av_info().fps_code, new_rate);
}

#[test]
fn working_memory_is_the_only_backed_kind() {
    assert_eq!(memory_kind(2), MemoryKind::SystemRam);
    let ram = 65_536;
    assert_eq!(memory_region_size(MemoryKind::SystemRam, ram), ram);
    assert!(memory_region_size(MemoryKind::SystemRam, ram) > 0);
    assert!(memory_region_backed(MemoryKind::SystemRam));
}

#[test]
fn other_memory_kinds_report_zero_and_no_view() {
    assert_eq!(memory_kind(0), MemoryKind::SaveRam);
    assert_eq!(memory_kind(1), MemoryKind::Rtc);
    assert_eq!(memory_kind(3), MemoryKind::VideoRam);
    assert_eq!(memory_kind(4), MemoryKind::Unsupported);
    assert_eq!(memory_kind(u32::MAX), MemoryKind::Unsupported);
    for kind in [
        MemoryKind::SaveRam,
        MemoryKind::Rtc,
        MemoryKind::VideoRam,
        MemoryKind::Unsupported,
    ] {
        assert_eq!(memory_region_size(kind, 65_536), 0);
        assert!(!memory_region_backed(kind));
    }
}

#[test]
fn pixel_conversion_is_a_straight_channel_copy() {
    assert_eq!(xrgb_pixel(0x12, 0x34, 0x56), 0x0012_3456);
    assert_eq!(xrgb_pixel(0xFF, 0xFF, 0xFF), 0x00FF_FFFF);
    assert_eq!(xrgb_pixel(0x00, 0x00, 0x00), 0x0000_0000);
}

#[test]
fn blit_rewrites_every_pixel() {
    let Ok(mut session) = Session::load_game(true, true, true, Rotation::Zero) else {
        panic!("load failed");
    };
    let mut rgb: Vec<u8> = Vec::with_capacity(3 * FRAME_BUFFER_LENGTH);
    for i in 0..FRAME_BUFFER_LENGTH {
        rgb.push((i % 251) as u8);
        rgb.push((i % 13) as u8);
        rgb.push((i % 7) as u8);
    }
    session.blit_screen(&rgb);
    for i in [0usize, 1, 500, FRAME_BUFFER_LENGTH - 1] {
        let expected = xrgb_pixel(rgb[3 * i], rgb[3 * i + 1], rgb[3 * i + 2]);
        assert_eq!(session.frame_buffer[i], expected);
    }
}

#[test]
fn snapshot_size_requires_a_positive_count() {
    assert_eq!(snapshot_size(0), None);
    assert_eq!(snapshot_size(7), Some(7));
}

#[test]
fn restore_is_all_or_nothing() {
    let (kept, restored) = apply_restore(1u32, None);
    assert_eq!(kept, 1);
    assert!(!restored);
    let (kept, restored) = apply_restore(1u32, Some(2));
    assert_eq!(kept, 2);
    assert!(restored);
}

#[test]
fn rotation_codes_are_quarter_turns() {
    assert_eq!(host_rotation_code(Rotation::Zero), 0);
    assert_eq!(host_rotation_code(Rotation::Ninety), 1);
    assert_eq!(host_rotation_code(Rotation::TwoSeventy), 3);
}

#[test]
fn declared_capabilities() {
    assert_eq!(core_name(), "holani");
    assert_eq!(valid_extensions(), "lnx|o");
}

#[test]
fn session_frame_accounting_matches_the_pacer() {
    let Ok(mut session) = Session::load_game(true, true, true, Rotation::Zero) else {
        panic!("load failed");
    };
    assert_eq!(session.advance_cycles(14_500), 20);
    assert_eq!(session.pacer.ticks, 0);
    assert_eq!(session.advance_cycles(724), 0);
    assert_eq!(session.advance_cycles(1), 1);
    assert_eq!(session.pacer.ticks, 0);
}
