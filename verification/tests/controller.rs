use aa_player::gpui_video::controller::commands::SPEED_STEPS;
use aa_player::gpui_video::controller::{
    AudioClockSource, PlayerCommand, PlayerController, SeekStep,
};
use aa_player::gpui_video::i18n::{lang_of, I18n, Lang, StrKey};
use aa_player::player_core::audio_decoder::NORMAL_SPEED;
use aa_player::player_core::audio_output::{AudioClock, AudioFormat, AudioOutput};
use aa_player::player_core::frame::Rational;
use aa_player::time::{Duration, Instant};

/// A speed that is so many times normal speed.
fn speed_of(times: f64) -> u64 {
    (times * NORMAL_SPEED as f64) as u64
}

fn player() -> PlayerController<u32> {
    PlayerController::open(Lang::Zh)
}

/// A player at the given second of a media of ten seconds.
fn player_at(s: u64) -> PlayerController<u32> {
    let mut c = player();
    c.consume_frame(Some((1, s * 1_000_000, 10_000_000, false, 0)));
    c
}

#[test]
fn fresh_player_is_at_the_start() {
    let mut c = player();
    assert_eq!(c.position(), Duration::zero());
    assert_eq!(c.duration(), Duration::zero());
    assert_eq!(c.video_size(), (0, 0));
    assert_eq!(c.fps(), Rational { num: 0, den: 1 });
    assert_eq!(c.speed(), NORMAL_SPEED);
    assert_eq!(c.seek_step(), SeekStep::Duration(Duration::from_secs(5)));
    assert!(!c.paused() && !c.is_muted() && !c.is_dragging());
    assert!(!c.is_menu_open() && !c.is_info_open());
    assert_eq!(c.latest_frame(), None);
    assert_eq!(c.take_commands(), vec![]);
}

#[test]
fn pause_and_play_are_asked_for_once() {
    let mut c = player();
    c.play();
    c.pause();
    c.pause();
    c.play();
    c.toggle();
    c.toggle();
    assert_eq!(
        c.take_commands(),
        vec![
            PlayerCommand::Pause,
            PlayerCommand::Resume,
            PlayerCommand::Pause,
            PlayerCommand::Resume
        ]
    );
    assert_eq!(c.take_commands(), vec![]);
    assert!(!c.paused());
}

#[test]
fn muting_is_asked_for_once() {
    let mut c = player();
    c.set_muted(false);
    c.toggle_mute();
    c.set_muted(true);
    assert!(c.is_muted());
    c.toggle_mute();
    assert_eq!(
        c.take_commands(),
        vec![PlayerCommand::SetMuted(true), PlayerCommand::SetMuted(false)]
    );
}

#[test]
fn speeds_go_around() {
    let mut c = player();
    for times in [1.25, 1.5, 2.0, 0.5, 1.0] {
        let next = speed_of(times);
        c.cycle_speed();
        assert_eq!(c.speed(), next);
        assert_eq!(c.take_commands(), vec![PlayerCommand::SetSpeed(next)]);
        assert!(SPEED_STEPS.contains(&next));
    }
    c.set_speed(speed_of(1.0));
    assert_eq!(c.take_commands(), vec![]);
    c.set_speed(speed_of(0.1));
    assert_eq!(c.speed(), speed_of(0.25));
    c.set_speed(speed_of(9.0));
    assert_eq!(c.speed(), speed_of(4.0));
    // A speed that is not in the menu counts as the first one.
    c.cycle_speed();
    assert_eq!(c.speed(), speed_of(1.25));
}

#[test]
fn speeds_are_told_apart_as_doubles_are() {
    let mut c = player();
    // The next double behind 1 is another speed, and is kept as it is.
    c.set_speed(speed_of(1.0 + f64::EPSILON));
    assert_eq!(c.speed(), speed_of(1.0 + f64::EPSILON));
    assert_eq!(c.take_commands().len(), 1);
    // Below 1 the doubles are closer together: neighbours count as one speed.
    c.set_speed(speed_of(0.7));
    c.take_commands();
    let neighbour = f64::from_bits(0.7f64.to_bits() + 1);
    c.set_speed(speed_of(neighbour));
    assert_eq!(c.speed(), speed_of(0.7));
    assert_eq!(c.take_commands(), vec![]);
    c.set_speed(speed_of(f64::from_bits(0.7f64.to_bits() + 2)));
    assert_eq!(c.take_commands().len(), 1);
    // One that counts as a speed of the menu stands where that one does.
    c.set_speed(speed_of(f64::from_bits(0.5f64.to_bits() - 1)));
    c.cycle_speed();
    assert_eq!(c.speed(), speed_of(1.0));
}

#[test]
fn steps_go_around() {
    let mut c = player();
    let ms = |n| SeekStep::Duration(Duration::from_millis(n));
    for next in [
        ms(10_000),
        ms(30_000),
        SeekStep::Frames(1),
        ms(1),
        ms(100),
        ms(5_000),
    ] {
        c.cycle_seek_step();
        assert_eq!(c.seek_step(), next);
    }
    assert_eq!(
        PlayerController::<u32>::seek_step_options(),
        vec![
            SeekStep::Frames(1),
            ms(1),
            ms(100),
            ms(5_000),
            ms(10_000),
            ms(30_000)
        ]
    );
    c.set_seek_step(SeekStep::Frames(7));
    c.cycle_seek_step();
    assert_eq!(c.seek_step(), ms(1));
    assert_eq!(c.take_commands(), vec![]);
}

#[test]
fn steps_have_lengths_and_names() {
    let one = SeekStep::Frames(1);
    assert_eq!(
        one.resolve(Rational { num: 25, den: 1 }),
        Duration::from_millis(40)
    );
    assert_eq!(
        one.resolve(Rational { num: 0, den: 1 }),
        Duration::from_nanos(33_333_333)
    );
    assert_eq!(
        SeekStep::Frames(2).resolve(Rational {
            num: 30_000,
            den: 1001
        }),
        Duration::from_nanos(66_733_333)
    );
    assert_eq!(one.label(Lang::Zh), "1帧");
    assert_eq!(one.label(Lang::En), "1frame");
    assert_eq!(
        SeekStep::Duration(Duration::from_millis(100)).label(Lang::En),
        "100ms"
    );
    assert_eq!(
        SeekStep::Duration(Duration::from_millis(999)).label(Lang::Zh),
        "999ms"
    );
    assert_eq!(
        SeekStep::Duration(Duration::from_secs(30)).label(Lang::Zh),
        "30s"
    );
}

#[test]
fn seek_moves_the_place_at_once() {
    let mut c = player_at(2);
    c.seek_to(Duration::from_secs(7));
    assert_eq!(c.position(), Duration::from_secs(7));
    assert_eq!(
        c.take_commands(),
        vec![PlayerCommand::SeekCommit(Duration::from_secs(7), 1)]
    );
    c.seek_to(Duration::from_secs(70));
    assert_eq!(c.position(), Duration::from_secs(10));
    assert_eq!(c.seek_gen(), 2);
}

#[test]
fn unknown_length_does_not_limit_a_seek() {
    let mut c = player();
    c.seek_to(Duration::from_secs(7));
    assert_eq!(c.position(), Duration::from_secs(7));
    assert_eq!(
        c.take_commands(),
        vec![PlayerCommand::SeekCommit(Duration::from_secs(7), 1)]
    );
}

#[test]
fn relative_seeks_stay_inside() {
    let mut c = player_at(7);
    c.seek_relative(2_000_000_000);
    assert_eq!(c.position(), Duration::from_secs(9));
    c.seek_forward(Duration::from_secs(5));
    assert_eq!(c.position(), Duration::from_secs(10));
    c.seek_relative(-4_000_000_000);
    assert_eq!(c.position(), Duration::from_secs(6));
    c.seek_backward(Duration::from_secs(60));
    assert_eq!(c.position(), Duration::zero());
    c.seek_relative(i64::MIN);
    assert_eq!(c.position(), Duration::zero());
    assert_eq!(c.seek_gen(), 5);
}

#[test]
fn steps_go_forward_and_back() {
    let mut c = player_at(3);
    c.set_fps(Rational { num: 25, den: 1 });
    c.set_video_size(480, 270);
    assert_eq!(c.video_size(), (480, 270));
    c.seek_forward_step();
    assert_eq!(c.position(), Duration::from_secs(8));
    c.set_seek_step(SeekStep::Frames(1));
    assert_eq!(c.seek_step_duration(), Duration::from_millis(40));
    c.seek_backward_step();
    assert_eq!(c.position(), Duration::from_millis(7_960));
}

#[test]
fn stale_pictures_are_shown_but_do_not_move_the_place() {
    let mut c = player_at(2);
    c.seek_to(Duration::from_secs(8));
    c.consume_frame(Some((77, 2_033_333, 10_000_000, false, 0)));
    assert_eq!(c.position(), Duration::from_secs(8));
    assert_eq!(c.latest_frame(), Some(&77));
    c.consume_frame(Some((78, 8_000_000, 10_000_000, false, 1)));
    assert_eq!(c.position(), Duration::from_secs(8));
    c.consume_frame(Some((79, 8_033_333, 10_000_000, false, 1)));
    assert_eq!(c.position(), Duration::from_micros(8_033_333));
}

#[test]
fn slider_leads_during_a_drag() {
    let mut c = player_at(2);
    c.mute_audio();
    c.seek_preview_at(Duration::from_secs(5), Instant::at_nanos(0));
    assert!(c.is_dragging());
    c.consume_frame(Some((9, 5_000_000, 10_000_000, true, 1)));
    assert_eq!(c.position(), Duration::from_secs(5));
    c.consume_frame(Some((9, 4_000_000, 10_000_000, false, 1)));
    assert_eq!(c.position(), Duration::from_secs(5));
    c.seek_release(Duration::from_secs(6));
    assert!(!c.is_dragging());
    assert_eq!(
        c.take_commands(),
        vec![
            PlayerCommand::MuteAudio,
            PlayerCommand::SeekPreview(Duration::from_secs(5), 1),
            PlayerCommand::SeekCommit(Duration::from_secs(6), 2)
        ]
    );
}

#[test]
fn previews_are_throttled_but_the_place_follows() {
    let mut c = player_at(0);
    let ms = |n: u64| Instant::at_nanos(n * 1_000_000);
    c.seek_preview_at(Duration::from_millis(100), ms(0));
    c.seek_preview_at(Duration::from_millis(200), ms(44));
    assert_eq!(c.position(), Duration::from_millis(200));
    c.seek_preview_at(Duration::from_millis(300), ms(45));
    c.seek_preview_at(Duration::from_millis(400), ms(89));
    c.seek_release(Duration::from_millis(400));
    assert_eq!(
        c.take_commands(),
        vec![
            PlayerCommand::SeekPreview(Duration::from_millis(100), 1),
            PlayerCommand::SeekPreview(Duration::from_millis(300), 3),
            PlayerCommand::SeekCommit(Duration::from_millis(400), 5)
        ]
    );
}

#[test]
fn running_watch_throttles_too() {
    let mut c = player_at(0);
    for i in 0..50 {
        c.seek_preview(Duration::from_millis(i * 50));
    }
    let asked = c.take_commands().len();
    assert!((1..50).contains(&asked), "{asked}");
    assert_eq!(c.seek_gen(), 50);
    assert_eq!(c.position(), Duration::from_millis(2_450));
}

#[test]
fn end_fills_the_slider() {
    let mut c = player_at(9);
    c.consume_frame(None);
    assert_eq!(c.position(), Duration::from_secs(10));
    let mut empty = player();
    empty.consume_frame(None);
    assert_eq!(empty.position(), Duration::zero());
}

#[test]
fn menu_and_panel_open_and_close() {
    let mut c = player();
    c.toggle_menu();
    assert!(c.is_menu_open());
    c.toggle_menu();
    assert!(!c.is_menu_open());
    c.toggle_menu();
    c.close_menu();
    assert!(!c.is_menu_open());
    c.toggle_info();
    assert!(c.is_info_open());
    c.close_info();
    assert!(!c.is_info_open());
}

#[test]
fn clock_source_counts_its_clocks() {
    let mut s = AudioClockSource::default();
    assert_eq!(s.get_with_generation(), (0, 0, None));
    let clock = AudioClock::for_test(Duration::from_millis(3), true);
    s.attach(clock);
    s.attach(clock);
    s.set_seek_offset(-5);
    assert_eq!(s.get_with_generation(), (2, -5, Some(clock)));
}

#[test]
fn clock_that_is_handed_over_goes_on() {
    let format = AudioFormat {
        sample_rate: 1000,
        channels: 1,
    };
    let mut card: AudioOutput<u8> = AudioOutput::new(format);
    let mut s = AudioClockSource::new();
    s.refresh(card.clock());
    assert_eq!(s.get_with_generation(), (0, 0, None));
    s.attach(card.clock());
    s.set_seek_offset(7);
    let (_, _, clock) = s.get_with_generation();
    assert!(!clock.expect("a clock").started());
    for ms in [20, 40] {
        card.push_samples(&vec![1; 20]);
        card.fill(&mut vec![0; 20], 0);
        s.refresh(card.clock());
        let (generation, offset, clock) = s.get_with_generation();
        assert_eq!((generation, offset), (1, 7));
        let clock = clock.expect("a clock");
        assert!(clock.started());
        assert_eq!(clock.position(), Duration::from_millis(ms));
    }
}

#[test]
fn languages_have_texts() {
    let mut c = player();
    assert_eq!(c.lang(), Lang::Zh);
    assert_eq!(c.t(StrKey::Speed), "倍速");
    c.cycle_lang();
    assert_eq!(c.t(StrKey::Speed), "Speed");
    let mut i = I18n::new(Lang::En);
    assert_eq!(i.lang(), Lang::En);
    for (key, zh, en) in [
        (StrKey::Speed, "倍速", "Speed"),
        (StrKey::Info, "info", "Info"),
        (StrKey::Step, "步长", "Step"),
        (StrKey::Language, "语言", "Language"),
        (StrKey::Resolution, "分辨率", "Resolution"),
        (StrKey::Fps, "帧率", "FPS"),
    ] {
        i.set_lang(Lang::Zh);
        assert_eq!(i.get(key), zh);
        i.cycle();
        assert_eq!(i.get(key), en);
    }
    assert_eq!(Lang::Zh.label(), "中文");
    assert_eq!(Lang::En.label(), "English");
    assert_eq!(Lang::Zh.cycle(), Lang::En);
    assert_eq!(Lang::En.cycle(), Lang::Zh);
}

#[test]
fn locale_decides_the_language() {
    assert_eq!(lang_of("en_US.UTF-8"), Some(Lang::En));
    assert_eq!(lang_of("EN-gb"), Some(Lang::En));
    assert_eq!(lang_of("en"), Some(Lang::En));
    assert_eq!(lang_of("eng"), Some(Lang::En));
    assert_eq!(lang_of("zh_CN.UTF-8"), Some(Lang::Zh));
    assert_eq!(lang_of("ja"), Some(Lang::Zh));
    assert_eq!(lang_of("e"), Some(Lang::Zh));
    assert_eq!(lang_of("C"), Some(Lang::Zh));
    assert_eq!(lang_of(""), None);
    assert_eq!(lang_of(".UTF-8"), None);
}

#[test]
fn first_variable_with_a_language_decides() {
    let v = |s: &str| Some(s.to_string());
    assert_eq!(Lang::detect(&vec![None, None, v("en_US"), v("zh")]), Lang::En);
    assert_eq!(Lang::detect(&vec![v(""), v("ja"), v("en"), None]), Lang::Zh);
    assert_eq!(Lang::detect(&vec![None, v("_x"), v("en_GB"), None]), Lang::En);
    assert_eq!(Lang::detect(&vec![None, None, None, None]), Lang::Zh);
}
