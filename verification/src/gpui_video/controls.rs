//! What the controls show: texts, icons and menus.

use crate::gpui_video::controller::commands::{after_speed, next_speed};
use crate::gpui_video::controller::{known_fps, ControllerState, PlayerController};
use crate::gpui_video::i18n::{translated, Lang, StrKey};
use crate::gpui_video::player::TimeFormat;
use crate::player_core::frame::Rational;
use crate::text::{decimal, padded, push_decimal, push_padded};
use crate::time::{nearest, Duration, NANOS_PER_SEC};
use vstd::prelude::*;
use vstd::string::StringExecFns;

verus! {

/// The icon of the button that goes on playing.
pub const ICON_PLAY: &'static str = "icons/play_filled.svg";

/// The icon of the button that pauses.
pub const ICON_PAUSE: &'static str = "icons/debug_pause.svg";

/// The icon of the button that mutes.
pub const ICON_VOLUME_ON: &'static str = "icons/audio_on.svg";

/// The icon of the button that unmutes.
pub const ICON_VOLUME_OFF: &'static str = "icons/audio_off.svg";

/// The icon of the button that opens the menu.
pub const ICON_MORE: &'static str = "icons/ellipsis_vertical.svg";

/// The media has at least one frame per second, or does not tell.
pub open spec fn has_frames(fps: Rational) -> bool {
    known_fps(fps).abs_num() >= known_fps(fps).abs_den()
}

/// Whether the media has at least one frame per second, or does not tell.
pub fn can_count_frames(fps: Rational) -> (r: bool)
    ensures
        r == has_frames(fps),
{
    let (num, den): (u32, u32) = fps.sizes();
    !fps.is_positive() || num >= den
}

/// The whole frames in a second.
pub open spec fn whole_fps(fps: Rational) -> int {
    known_fps(fps).abs_num() / known_fps(fps).abs_den()
}

/// The picture within its second: the closest one, but one of that second.
pub open spec fn frame_in_second(nanos: nat, fps: Rational) -> int {
    let exact = nearest(
        (nanos % 1_000_000_000) as int * known_fps(fps).abs_num(),
        known_fps(fps).abs_den() * NANOS_PER_SEC,
    );
    if exact > whole_fps(fps) - 1 {
        whole_fps(fps) - 1
    } else {
        exact
    }
}

/// A place in a media of `fps` frames per second, written out.
pub open spec fn timecode_text(nanos: nat, fps: Rational, format: TimeFormat) -> Seq<char> {
    let secs = nanos / 1_000_000_000;
    let short = padded(secs / 60, 2) + ":"@ + padded(secs % 60, 2) + ":"@ + padded(
        frame_in_second(nanos, fps) as nat,
        2,
    );
    match format {
        TimeFormat::Frame => short,
        TimeFormat::FrameMillis => short + ","@ + padded(nanos / 1_000_000 % 1000, 3) + ","@
            + decimal(nanos / 1_000_000),
    }
}

/// The picture within its second. A media of less than one frame per second has none.
fn frame_number(d: Duration, fps: Rational) -> (n: u32)
    requires
        has_frames(fps),
    ensures
        n == frame_in_second(d@, fps),
{
    let known = if fps.is_positive() {
        fps
    } else {
        Rational { num: 30, den: 1 }
    };
    let (num, den): (u32, u32) = known.sizes();
    let nanos: u128 = d.as_nanos();
    let part: u128 = nanos % 1_000_000_000;
    assert(0 <= part * num <= 1_000_000_000 * 0xffff_ffff) by (nonlinear_arith)
        requires
            part < 1_000_000_000,
            num <= 0xffff_ffff,
    ;
    let top: u128 = part * num as u128;
    let unit: u128 = den as u128 * 1_000_000_000;
    let exact: u128 = (2 * top + unit) / (2 * unit);
    let whole: u32 = num / den;
    assert(whole >= 1) by (nonlinear_arith)
        requires
            num >= den,
            den > 0,
            whole == num / den,
    ;
    if exact > (whole - 1) as u128 {
        whole - 1
    } else {
        exact as u32
    }
}

/// Writes out a place in a media of `fps` frames per second.
pub fn timecode(d: Duration, fps: Rational, format: TimeFormat) -> (r: String)
    requires
        has_frames(fps),
    ensures
        r@ == timecode_text(d@, fps, format),
{
    let mut text = String::new();
    let secs: u64 = d.as_secs();
    let total_ms: u128 = d.as_millis();
    push_padded(&mut text, (secs / 60) as u128, 2);
    assert(text@ =~= padded(d@ / 1_000_000_000 / 60, 2));
    text.append(":");
    push_padded(&mut text, (secs % 60) as u128, 2);
    text.append(":");
    push_padded(&mut text, frame_number(d, fps) as u128, 2);
    match format {
        TimeFormat::Frame => {},
        TimeFormat::FrameMillis => {
            text.append(",");
            push_padded(&mut text, total_ms % 1000, 3);
            text.append(",");
            push_decimal(&mut text, total_ms);
        },
    }
    text
}

/// The place and the length of the media, written out.
pub fn time_text<F>(controller: &PlayerController<F>, format: TimeFormat) -> (r: String)
    requires
        has_frames(controller@.video_fps),
    ensures
        r@ == timecode_text(controller@.position@, controller@.video_fps, format) + " / "@
            + timecode_text(controller@.duration@, controller@.video_fps, format),
{
    let mut text = timecode(controller.position(), controller.fps(), format);
    text.append(" / ");
    let end = timecode(controller.duration(), controller.fps(), format);
    text.append(end.as_str());
    text
}

/// An eighth of normal speed.
pub const SPEED_EIGHTH: u64 = 0x8_0000_0000_0000;

/// The thousandths of a number behind its point, without zeros at the end.
pub open spec fn fraction_text(thousandths: nat) -> Seq<char> {
    if thousandths == 0 {
        Seq::empty()
    } else if thousandths % 100 == 0 {
        "."@ + decimal(thousandths / 100)
    } else if thousandths % 10 == 0 {
        "."@ + padded(thousandths / 10, 2)
    } else {
        "."@ + padded(thousandths, 3)
    }
}

/// A speed, written out: how many times normal speed it is. Whole eighths, such as all the speeds
/// of the menu, have three digits at most behind the point; of any other speed `written` is the
/// number.
pub open spec fn speed_text(speed: u64, written: Seq<char>) -> Seq<char> {
    let thousandths = (speed / SPEED_EIGHTH * 125) as nat;
    if speed % SPEED_EIGHTH == 0 {
        decimal(thousandths / 1000) + fraction_text(thousandths % 1000) + "x"@
    } else {
        written + "x"@
    }
}

/// Writes out a speed. Where it is not made of whole eighths, `written` is the text of the number.
pub fn speed_label(speed: u64, written: &str) -> (r: String)
    ensures
        r@ == speed_text(speed, written@),
{
    if speed % SPEED_EIGHTH != 0 {
        let mut text = written.to_string();
        text.append("x");
        return text;
    }
    let thousandths: u64 = speed / SPEED_EIGHTH * 125;
    let mut text = String::new();
    push_decimal(&mut text, (thousandths / 1000) as u128);
    assert(text@ =~= decimal((thousandths / 1000) as nat));
    let ghost whole = text@;
    let part: u64 = thousandths % 1000;
    if part == 0 {
    } else if part % 100 == 0 {
        text.append(".");
        push_decimal(&mut text, (part / 100) as u128);
    } else if part % 10 == 0 {
        text.append(".");
        push_padded(&mut text, (part / 10) as u128, 2);
    } else {
        text.append(".");
        push_padded(&mut text, part as u128, 3);
    }
    assert(text@ =~= whole + fraction_text(part as nat));
    text.append("x");
    text
}

/// A hundred times a number, rounded; halves go to the even side.
pub open spec fn hundredths(num: int, den: int) -> int {
    let q = 100 * num / den;
    let r = 100 * num % den;
    if 2 * r > den || (2 * r == den && q % 2 == 1) {
        q + 1
    } else {
        q
    }
}

/// The frames per second, written out with two digits behind the point.
pub open spec fn fps_text(fps: Rational) -> Seq<char> {
    let h = if fps.den == 0 {
        0
    } else {
        hundredths(fps.abs_num(), fps.abs_den())
    } as nat;
    let sign = if fps.num != 0 && fps.den != 0 && (fps.num < 0) != (fps.den < 0) {
        "-"@
    } else {
        Seq::empty()
    };
    sign + decimal(h / 100) + "."@ + padded(h % 100, 2) + " fps"@
}

/// Appends the frames per second, with two digits behind the point.
fn push_fps(out: &mut String, fps: Rational)
    ensures
        final(out)@ == old(out)@ + fps_text(fps),
{
    let ghost before = out@;
    let (num, den): (u32, u32) = fps.sizes();
    let h: u64 = if den == 0 {
        0
    } else {
        let total: u64 = 100 * num as u64;
        let q: u64 = total / den as u64;
        let r: u64 = total % den as u64;
        if 2 * r > den as u64 || (2 * r == den as u64 && q % 2 == 1) {
            q + 1
        } else {
            q
        }
    };
    if fps.num != 0 && fps.den != 0 && (fps.num < 0) != (fps.den < 0) {
        out.append("-");
    }
    push_decimal(out, (h / 100) as u128);
    out.append(".");
    push_padded(out, (h % 100) as u128, 2);
    out.append(" fps");
    assert(out@ =~= before + fps_text(fps));
}

/// The icons of the two buttons that have more than one.
pub fn icons<F>(controller: &PlayerController<F>) -> (r: (&'static str, &'static str))
    ensures
        r.0@ == (if controller@.paused {
            ICON_PLAY@
        } else {
            ICON_PAUSE@
        }),
        r.1@ == (if controller@.muted {
            ICON_VOLUME_OFF@
        } else {
            ICON_VOLUME_ON@
        }),
{
    (
        if controller.paused() {
            ICON_PLAY
        } else {
            ICON_PAUSE
        },
        if controller.is_muted() {
            ICON_VOLUME_OFF
        } else {
            ICON_VOLUME_ON
        },
    )
}

/// The items of the menu.
#[derive(Debug, Clone, Copy, PartialEq, Eq, Structural)]
pub enum MenuItem {
    Speed,
    Info,
    Step,
    Language,
}

/// The text of an item of the menu.
pub open spec fn menu_text<F>(
    s: ControllerState<F>,
    item: MenuItem,
    written: Seq<char>,
) -> Seq<char> {
    match item {
        MenuItem::Speed => translated(s.lang, StrKey::Speed) + " "@ + speed_text(s.speed, written),
        MenuItem::Info => translated(s.lang, StrKey::Info),
        MenuItem::Step => translated(s.lang, StrKey::Step) + " "@ + s.seek_step.short_name(s.lang),
        MenuItem::Language => translated(s.lang, StrKey::Language) + " "@ + (match s.lang {
            Lang::Zh => "中文"@,
            Lang::En => "English"@,
        }),
    }
}

/// The text of an item of the menu. Where the speed is not made of whole eighths, `written` is the
/// text of its number.
pub fn menu_label<F>(controller: &PlayerController<F>, item: MenuItem, written: &str) -> (r: String)
    ensures
        r@ == menu_text(controller@, item, written@),
{
    match item {
        MenuItem::Speed => {
            let mut text = controller.t(StrKey::Speed).to_string();
            text.append(" ");
            let label = speed_label(controller.speed(), written);
            text.append(label.as_str());
            text
        },
        MenuItem::Info => controller.t(StrKey::Info).to_string(),
        MenuItem::Step => {
            let mut text = controller.t(StrKey::Step).to_string();
            text.append(" ");
            let label = controller.seek_step().label(controller.lang());
            text.append(label.as_str());
            text
        },
        MenuItem::Language => {
            let mut text = controller.t(StrKey::Language).to_string();
            text.append(" ");
            text.append(controller.lang().label());
            text
        },
    }
}

/// An item of the menu was clicked. The menu stays open, so that one can click on; only the one
/// for the panel closes it, and opens or closes the panel.
pub fn menu_click<F>(controller: &mut PlayerController<F>, item: MenuItem)
    ensures
        match item {
            MenuItem::Speed => final(controller)@ == after_speed(
                old(controller)@,
                next_speed(old(controller)@.speed),
            ),
            MenuItem::Info => final(controller)@ == (ControllerState {
                menu_open: false,
                info_open: !old(controller)@.info_open,
                ..old(controller)@
            }),
            MenuItem::Step => {
                &&& crate::gpui_video::controller::commands::is_step(
                    final(controller)@.seek_step,
                    (crate::gpui_video::controller::commands::step_index(
                        old(controller)@.seek_step,
                    ) + 1) % 6,
                )
                &&& final(controller)@ == (ControllerState {
                    seek_step: final(controller)@.seek_step,
                    ..old(controller)@
                })
            },
            MenuItem::Language => final(controller)@ == (ControllerState {
                lang: old(controller)@.lang.other(),
                ..old(controller)@
            }),
        },
{
    match item {
        MenuItem::Speed => controller.cycle_speed(),
        MenuItem::Info => {
            controller.close_menu();
            controller.toggle_info();
        },
        MenuItem::Step => controller.cycle_seek_step(),
        MenuItem::Language => controller.cycle_lang(),
    }
}

/// The first line of the panel: the size of the pictures.
pub open spec fn size_line<F>(s: ControllerState<F>) -> Seq<char> {
    translated(s.lang, StrKey::Resolution) + ": "@ + decimal(s.video_size.0 as nat) + "x"@
        + decimal(s.video_size.1 as nat)
}

/// The second line of the panel: the frames per second.
pub open spec fn fps_line<F>(s: ControllerState<F>) -> Seq<char> {
    translated(s.lang, StrKey::Fps) + ": "@ + fps_text(s.video_fps)
}

/// The third line of the panel: the speed.
pub open spec fn speed_line<F>(s: ControllerState<F>, written: Seq<char>) -> Seq<char> {
    translated(s.lang, StrKey::Speed) + ": "@ + speed_text(s.speed, written)
}

/// The lines of the panel. Where the speed is not made of whole eighths, `written` is the text of
/// its number.
pub fn info_lines<F>(controller: &PlayerController<F>, written: &str) -> (r: (
    String,
    String,
    String,
))
    ensures
        r.0@ == size_line(controller@),
        r.1@ == fps_line(controller@),
        r.2@ == speed_line(controller@, written@),
{
    let (width, height): (u32, u32) = controller.video_size();
    let mut size = controller.t(StrKey::Resolution).to_string();
    size.append(": ");
    push_decimal(&mut size, width as u128);
    size.append("x");
    push_decimal(&mut size, height as u128);
    let mut fps = controller.t(StrKey::Fps).to_string();
    fps.append(": ");
    push_fps(&mut fps, controller.fps());
    let mut speed = controller.t(StrKey::Speed).to_string();
    speed.append(": ");
    let label = speed_label(controller.speed(), written);
    speed.append(label.as_str());
    (size, fps, speed)
}

/// The picture within its second is always one of that second.
pub proof fn law_frame_is_within_second(nanos: nat, fps: Rational)
    requires
        has_frames(fps),
    ensures
        0 <= frame_in_second(nanos, fps) < whole_fps(fps),
{
    let num = known_fps(fps).abs_num();
    let den = known_fps(fps).abs_den();
    let part = (nanos % 1_000_000_000) as int;
    assert(num / den >= 1) by (nonlinear_arith)
        requires
            num >= den,
            den > 0,
    ;
    assert((2 * (part * num) + den * 1_000_000_000) / (2 * (den * 1_000_000_000)) >= 0)
        by (nonlinear_arith)
        requires
            part >= 0,
            num >= 0,
            den > 0,
    ;
}

} // verus!
