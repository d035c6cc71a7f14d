use aa_player::gpui_video::controller::{PlayerCommand, PlayerController};
use aa_player::gpui_video::controls::{
    can_count_frames, icons, info_lines, menu_click, menu_label, speed_label, time_text, timecode,
    MenuItem, ICON_PAUSE, ICON_PLAY, ICON_VOLUME_OFF, ICON_VOLUME_ON, SPEED_EIGHTH,
};
use aa_player::gpui_video::i18n::Lang;
use aa_player::gpui_video::playback_clock::Schedule;
use aa_player::gpui_video::player::{
    drift_of, key_of, Key, Player, RenderLoop, Showing, SliderEvent, TimeFormat,
};
use aa_player::player_core::audio_decoder::NORMAL_SPEED;
use aa_player::player_core::audio_output::AudioClock;
use aa_player::player_core::frame::Rational;
use aa_player::time::{Duration, Instant};

const FPS_30: Rational = Rational { num: 30, den: 1 };

fn player_at(s: u64) -> PlayerController<u32> {
    let mut c = PlayerController::open(Lang::Zh);
    c.consume_frame(Some((1, s * 1_000_000, 100_000_000, false, 0)));
    c
}

#[test]
fn places_are_written_out() {
    let d = Duration::from_millis(61_500);
    assert_eq!(timecode(d, FPS_30, TimeFormat::Frame), "01:01:15");
    assert_eq!(
        timecode(d, FPS_30, TimeFormat::FrameMillis),
        "01:01:15,500,61500"
    );
    assert_eq!(
        timecode(Duration::zero(), FPS_30, TimeFormat::FrameMillis),
        "00:00:00,000,0"
    );
    // Unknown frames per second count as thirty.
    assert_eq!(
        timecode(d, Rational { num: 0, den: 1 }, TimeFormat::Frame),
        "01:01:15"
    );
    // The picture stays inside its second.
    assert_eq!(
        timecode(Duration::from_millis(999), FPS_30, TimeFormat::Frame),
        "00:00:29"
    );
    assert_eq!(
        timecode(Duration::from_millis(20), FPS_30, TimeFormat::Frame),
        "00:00:01"
    );
    assert_eq!(
        timecode(Duration::from_secs(7_384), FPS_30, TimeFormat::Frame),
        "123:04:00"
    );
    let ntsc = Rational {
        num: 30_000,
        den: 1001,
    };
    assert_eq!(
        timecode(Duration::from_millis(990), ntsc, TimeFormat::Frame),
        "00:00:28"
    );
    assert_eq!(TimeFormat::default(), TimeFormat::Frame);
}

#[test]
fn place_and_length_stand_side_by_side() {
    let mut c = player_at(5);
    c.set_fps(FPS_30);
    assert_eq!(time_text(&c, TimeFormat::Frame), "00:05:00 / 01:40:00");
}

#[test]
fn speeds_are_written_out() {
    for (times, text) in [
        (1.0, "1x"),
        (1.25, "1.25x"),
        (1.5, "1.5x"),
        (2.0, "2x"),
        (0.5, "0.5x"),
        (0.25, "0.25x"),
        (4.0, "4x"),
        (1.125, "1.125x"),
        (3.375, "3.375x"),
        (1.05, "1.05x"),
        (1.1, "1.1x"),
    ] {
        let speed = (times * NORMAL_SPEED as f64) as u64;
        assert_eq!(speed_label(speed, &format!("{times}")), text);
    }
    // Whole eighths are written out without help.
    for eighths in 2..=32 {
        let text = format!("{}x", f64::from(eighths) / 8.0);
        assert_eq!(speed_label(u64::from(eighths as u32) * SPEED_EIGHTH, ""), text);
    }
}

#[test]
fn pictures_of_a_second_can_be_counted() {
    let fps = |num, den| can_count_frames(Rational { num, den });
    assert!(fps(30, 1) && fps(30_000, 1001) && fps(1, 1) && fps(-5, -4));
    assert!(!fps(1, 2) && !fps(999, 1000));
    // A rate that is not known counts as thirty.
    assert!(fps(0, 1) && fps(1, 0) && fps(-1, 2));
}

#[test]
fn buttons_have_icons() {
    let mut c = player_at(0);
    assert_eq!(icons(&c), (ICON_PAUSE, ICON_VOLUME_ON));
    c.pause();
    c.toggle_mute();
    assert_eq!(icons(&c), (ICON_PLAY, ICON_VOLUME_OFF));
}

#[test]
fn menu_speaks_both_languages() {
    let mut c = player_at(0);
    assert_eq!(menu_label(&c, MenuItem::Speed, ""), "倍速 1x");
    assert_eq!(menu_label(&c, MenuItem::Info, ""), "info");
    assert_eq!(menu_label(&c, MenuItem::Step, ""), "步长 5s");
    assert_eq!(menu_label(&c, MenuItem::Language, ""), "语言 中文");
    menu_click(&mut c, MenuItem::Language);
    menu_click(&mut c, MenuItem::Speed);
    menu_click(&mut c, MenuItem::Step);
    assert_eq!(menu_label(&c, MenuItem::Speed, ""), "Speed 1.25x");
    assert_eq!(menu_label(&c, MenuItem::Info, ""), "Info");
    assert_eq!(menu_label(&c, MenuItem::Step, ""), "Step 10s");
    assert_eq!(menu_label(&c, MenuItem::Language, ""), "Language English");
}

#[test]
fn panel_item_closes_the_menu() {
    let mut c = player_at(0);
    c.toggle_menu();
    menu_click(&mut c, MenuItem::Speed);
    assert!(c.is_menu_open());
    menu_click(&mut c, MenuItem::Info);
    assert!(!c.is_menu_open());
    assert!(c.is_info_open());
}

#[test]
fn panel_tells_about_the_media() {
    let mut c = player_at(0);
    c.set_video_size(480, 270);
    c.set_fps(Rational {
        num: 30_000,
        den: 1001,
    });
    let (size, fps, speed) = info_lines(&c, "");
    assert_eq!(size, "分辨率: 480x270");
    assert_eq!(fps, "帧率: 29.97 fps");
    assert_eq!(speed, "倍速: 1x");
    c.set_speed((1.1 * NORMAL_SPEED as f64) as u64);
    assert_eq!(info_lines(&c, "1.1").2, "倍速: 1.1x");
    c.cycle_lang();
    c.set_fps(Rational { num: 25, den: 8 });
    assert_eq!(info_lines(&c, "").1, "FPS: 3.12 fps");
    c.set_fps(Rational { num: 27, den: 8 });
    assert_eq!(info_lines(&c, "").1, "FPS: 3.38 fps");
    c.set_fps(Rational { num: 0, den: 0 });
    assert_eq!(info_lines(&c, "").1, "FPS: 0.00 fps");
    c.set_fps(Rational { num: -60, den: 1 });
    assert_eq!(info_lines(&c, "").1, "FPS: -60.00 fps");
}

#[test]
fn keys_drive_the_player() {
    let mut p = Player::new(player_at(50)).time_format(TimeFormat::FrameMillis);
    assert_eq!(p.time_format, TimeFormat::FrameMillis);
    p.on_key(key_of("space"));
    assert!(p.controller.paused());
    p.on_key(key_of("right"));
    assert_eq!(p.controller.position(), Duration::from_secs(55));
    p.on_key(key_of("left"));
    p.on_key(key_of("left"));
    assert_eq!(p.controller.position(), Duration::from_secs(45));
    p.on_key(key_of("enter"));
    assert_eq!(key_of("enter"), Key::Other);
    assert_eq!(p.controller.take_commands().len(), 4);
}

#[test]
fn window_forwards_what_it_is_asked() {
    let mut p = Player::new(player_at(50));
    p.toggle();
    p.seek_forward(Duration::from_secs(10));
    p.seek_backward(Duration::from_secs(20));
    p.seek_preview(Duration::from_secs(1), Instant::at_nanos(0));
    p.seek(Duration::from_secs(2), Instant::at_nanos(1_000_000_000));
    assert_eq!(
        p.controller.take_commands(),
        vec![
            PlayerCommand::Pause,
            PlayerCommand::SeekCommit(Duration::from_secs(60), 1),
            PlayerCommand::SeekCommit(Duration::from_secs(40), 2),
            PlayerCommand::SeekPreview(Duration::from_secs(1), 3),
            PlayerCommand::SeekPreview(Duration::from_secs(2), 4),
            PlayerCommand::SeekCommit(Duration::from_secs(2), 5),
        ]
    );
}

#[test]
fn drag_silences_the_sound_once() {
    let mut p = Player::new(player_at(50));
    let ms = |n: u64| Instant::at_nanos(n * 1_000_000);
    assert_eq!(p.slider_range(), Some((50_000, 100_000)));
    p.on_slider(SliderEvent::Change(10_000), ms(0));
    assert_eq!(p.slider_range(), None);
    p.on_slider(SliderEvent::Change(20_000), ms(100));
    p.on_slider(SliderEvent::Release(30_000), ms(101));
    assert_eq!(p.slider_range(), Some((30_000, 100_000)));
    assert!(!p.dragging);
    assert_eq!(
        p.controller.take_commands(),
        vec![
            PlayerCommand::MuteAudio,
            PlayerCommand::SeekPreview(Duration::from_secs(10), 1),
            PlayerCommand::SeekPreview(Duration::from_secs(20), 2),
            PlayerCommand::SeekCommit(Duration::from_secs(30), 3),
        ]
    );
}

#[test]
fn controls_come_and_go_with_the_pointer() {
    let mut p = Player::new(player_at(0));
    assert!(!p.controls_visible);
    assert!(p.on_pointer_move());
    assert!(!p.on_pointer_move());
    p.controller.toggle_menu();
    assert!(!p.on_pointer_exit());
    assert!(p.controls_visible);
    p.controller.toggle_info();
    p.on_click_outside();
    assert!(!p.controller.is_menu_open() && !p.controller.is_info_open());
    assert!(p.on_pointer_exit());
    assert!(!p.controls_visible);
}

fn picture(ms: u64, preview: bool) -> Option<(u8, u64, u64, bool, u64)> {
    Some((0, ms * 1000, 10_000_000, preview, 0))
}

#[test]
fn sound_times_the_pictures() {
    let mut r = RenderLoop::new();
    let sound = AudioClock::for_test(Duration::from_millis(1_000), true);
    r.update(1, 0, Some(sound));
    let now = Instant::at_nanos(0);
    assert_eq!(r.on_item(&picture(1_000, false), false, now), Showing::Now);
    assert_eq!(
        r.on_item(&picture(1_500, false), false, now),
        Showing::After(Duration::from_millis(500))
    );
    assert_eq!(
        r.on_item(&picture(2_000, false), false, now),
        Showing::After(Duration::from_millis(1_000))
    );
    // Further away than a second: left over from before a seek.
    assert_eq!(r.on_item(&picture(2_001, false), false, now), Showing::Skip);
    assert_eq!(r.on_item(&picture(800, false), false, now), Showing::Skip);
    assert_eq!(r.clock.duration_us, 10_000_000);
}

#[test]
fn previews_and_drags_are_shown_at_once() {
    let mut r = RenderLoop::new();
    r.update(1, 0, Some(AudioClock::for_test(Duration::zero(), true)));
    let now = Instant::at_nanos(0);
    assert_eq!(r.on_item(&picture(9_000, true), false, now), Showing::Now);
    assert_eq!(r.on_item(&picture(9_000, false), true, now), Showing::Now);
    assert_eq!(r.on_item::<u8>(&None, false, now), Showing::Now);
    assert_eq!(r.on_item(&picture(9_000, false), false, now), Showing::Skip);
}

#[test]
fn new_sound_clock_resets_the_time_line() {
    let mut r = RenderLoop::new();
    let now = Instant::at_nanos(0);
    assert_eq!(r.on_item(&picture(0, false), false, now), Showing::Now);
    assert_eq!(
        r.on_item(&picture(500, false), false, now),
        Showing::After(Duration::from_millis(500))
    );
    // The same clock keeps it.
    r.update(0, 0, None);
    assert!(r.clock.origin.is_some());
    r.update(1, 250, Some(AudioClock::for_test(Duration::zero(), false)));
    assert!(r.clock.origin.is_none());
    assert_eq!(r.clock.audio_offset, 250);
    assert_eq!(r.on_item(&picture(500, false), false, now), Showing::Now);
    assert_eq!(
        r.clock.schedule_at(Duration::from_millis(500), now),
        Schedule::Now
    );
}

#[test]
fn drift_is_sound_minus_picture() {
    let sound = AudioClock::for_test(Duration::from_millis(1_000), true);
    assert_eq!(drift_of(&picture(980, false), Some(sound)), Some(20_000));
    assert_eq!(drift_of(&picture(1_020, false), Some(sound)), Some(-20_000));
    assert_eq!(drift_of(&picture(980, true), Some(sound)), None);
    assert_eq!(drift_of(&picture(980, false), None), None);
    assert_eq!(drift_of::<u8>(&None, Some(sound)), None);
}
