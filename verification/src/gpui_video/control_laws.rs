//! What holds of the texts of the controls, in terms of what they read as.

use crate::gpui_video::controller::ControllerState;
use crate::gpui_video::controls::{
    fps_line, fps_text, fraction_text, frame_in_second, has_frames, hundredths,
    law_frame_is_within_second, menu_text, size_line, speed_line, speed_text, timecode_text,
    whole_fps, MenuItem, ICON_MORE, ICON_PAUSE, ICON_PLAY, ICON_VOLUME_OFF, ICON_VOLUME_ON,
};
use crate::gpui_video::i18n::{translated, Lang, StrKey};
use crate::gpui_video::player::TimeFormat;
use crate::player_core::frame::Rational;
use crate::text::{
    decimal, is_number, law_decimal_reads_back, law_padded_reads_back, padded, reads,
};
use crate::time::{law_nearest_is_closest, lemma_nearest_is_unique};
use vstd::prelude::*;

verus! {

/// The media has `num / den` frames per second: its own rate, signs left out, where that is a
/// positive number, and thirty otherwise.
pub open spec fn has_rate(fps: Rational, num: int, den: int) -> bool {
    ||| fps.num > 0 && fps.den > 0 && num == fps.num && den == fps.den
    ||| fps.num < 0 && fps.den < 0 && num == -fps.num && den == -fps.den
    ||| (fps.num <= 0 || fps.den <= 0) && (fps.num >= 0 || fps.den >= 0) && num == 30 && den == 1
}

/// Pictures can be counted where there is at least one in a second.
pub proof fn law_pictures_can_be_counted(fps: Rational, num: int, den: int)
    requires
        has_rate(fps, num, den),
    ensures
        has_frames(fps) <==> num >= den,
        whole_fps(fps) * den <= num < (whole_fps(fps) + 1) * den,
{
    let w = whole_fps(fps);
    assert(w * den <= num < (w + 1) * den) by (nonlinear_arith)
        requires
            den > 0,
            w == num / den,
    ;
}

/// The number of a picture is that of the closest one: where `f` nanoseconds of the second have
/// gone, `n` pictures last no more than half a picture longer or shorter than that. Only the last
/// picture of the second may stand for what lies beyond it.
pub proof fn law_picture_is_the_closest(
    nanos: nat,
    fps: Rational,
    num: int,
    den: int,
    secs: int,
    f: int,
)
    requires
        has_rate(fps, num, den),
        num >= den,
        nanos == secs * 1_000_000_000 + f,
        0 <= f < 1_000_000_000,
    ensures
        ({
            let n = frame_in_second(nanos, fps);
            &&& 0 <= n
            &&& (n + 1) * den <= num
            &&& 2 * (n * (den * 1_000_000_000) - f * num) <= den * 1_000_000_000
            &&& (n + 2) * den <= num ==> -(den * 1_000_000_000) < 2 * (n * (den * 1_000_000_000) - f
                * num)
        }),
{
    law_frame_is_within_second(nanos, fps);
    law_pictures_can_be_counted(fps, num, den);
    let unit = den * 1_000_000_000;
    law_nearest_is_closest(f * num, unit);
    let n = frame_in_second(nanos, fps);
    let exact = crate::time::nearest(f * num, unit);
    let w = whole_fps(fps);
    assert(nanos % 1_000_000_000 == f);
    assert((n + 1) * den <= num) by (nonlinear_arith)
        requires
            n + 1 <= w,
            den > 0,
            w * den <= num,
    ;
    assert(n * unit <= exact * unit) by (nonlinear_arith)
        requires
            n <= exact,
            unit > 0,
    ;
    if (n + 2) * den <= num {
        assert(n + 1 < w) by (nonlinear_arith)
            requires
                (n + 2) * den <= num,
                num < (w + 1) * den,
                den > 0,
        ;
        assert(n == exact);
    }
}

/// The picture that stands `k` pictures into a second has the number `k`, for every `k` of that
/// second, at whatever rate: `f` is a nanosecond no further than half a picture from its time.
pub proof fn law_picture_has_its_number(
    nanos: nat,
    fps: Rational,
    num: int,
    den: int,
    secs: int,
    f: int,
    k: int,
)
    requires
        has_rate(fps, num, den),
        num >= den,
        nanos == secs * 1_000_000_000 + f,
        0 <= f < 1_000_000_000,
        0 <= k,
        (k + 1) * den <= num,
        -(den * 1_000_000_000) < 2 * (k * (den * 1_000_000_000) - f * num) <= den * 1_000_000_000,
    ensures
        frame_in_second(nanos, fps) == k,
{
    law_pictures_can_be_counted(fps, num, den);
    let unit = den * 1_000_000_000;
    lemma_nearest_is_unique(f * num, unit, k);
    let w = whole_fps(fps);
    assert(k + 1 <= w) by (nonlinear_arith)
        requires
            (k + 1) * den <= num,
            num < (w + 1) * den,
            den > 0,
    ;
    assert(nanos % 1_000_000_000 == f);
}

/// Later in a second is never an earlier picture, and every second counts anew.
pub proof fn law_pictures_are_in_order(
    first: nat,
    second: nat,
    fps: Rational,
    num: int,
    den: int,
    secs: int,
    other: int,
    f: int,
    g: int,
)
    requires
        has_rate(fps, num, den),
        num >= den,
        first == secs * 1_000_000_000 + f,
        second == other * 1_000_000_000 + g,
        0 <= f <= g < 1_000_000_000,
    ensures
        frame_in_second(first, fps) <= frame_in_second(second, fps),
        f == g ==> frame_in_second(first, fps) == frame_in_second(second, fps),
        f == 0 ==> frame_in_second(first, fps) == 0,
{
    let unit = den * 1_000_000_000;
    law_nearest_is_closest(f * num, unit);
    law_nearest_is_closest(g * num, unit);
    let a = crate::time::nearest(f * num, unit);
    let b = crate::time::nearest(g * num, unit);
    assert(f * num <= g * num) by (nonlinear_arith)
        requires
            f <= g,
            num >= 0,
    ;
    assert(a <= b) by (nonlinear_arith)
        requires
            unit > 0,
            f * num <= g * num,
            -unit < 2 * (a * unit - f * num) <= unit,
            -unit < 2 * (b * unit - g * num) <= unit,
    ;
    assert(first % 1_000_000_000 == f);
    assert(second % 1_000_000_000 == g);
    if f == 0 {
        assert(0 * num == 0);
        lemma_nearest_is_unique(0, unit, 0);
        law_frame_is_within_second(first, fps);
    }
}

/// A place is written as minutes, seconds and the picture of the second, with colons between them:
/// read back, minutes and seconds make up the whole seconds, and there are less than sixty of the
/// latter. The long form adds, behind commas, the milliseconds of the second and all milliseconds.
pub proof fn law_place_reads_back(nanos: nat, fps: Rational)
    requires
        has_frames(fps),
    ensures
        exists|m: Seq<char>, s: Seq<char>, f: Seq<char>, ms: Seq<char>, all: Seq<char>|
            {
                &&& #[trigger] is_number(m)
                &&& #[trigger] is_number(s)
                &&& #[trigger] is_number(f)
                &&& #[trigger] is_number(ms)
                &&& #[trigger] is_number(all)
                &&& m.len() >= 2
                &&& s.len() == 2
                &&& f.len() >= 2
                &&& ms.len() == 3
                &&& 0 <= reads(s) < 60
                &&& (reads(m) * 60 + reads(s)) * 1_000_000_000 <= nanos < (reads(m) * 60 + reads(s)
                    + 1) * 1_000_000_000
                &&& reads(f) == frame_in_second(nanos, fps)
                &&& reads(all) * 1_000_000 <= nanos < (reads(all) + 1) * 1_000_000
                &&& reads(all) == (reads(m) * 60 + reads(s)) * 1000 + reads(ms)
                &&& timecode_text(nanos, fps, TimeFormat::Frame) == m + ":"@ + s + ":"@ + f
                &&& timecode_text(nanos, fps, TimeFormat::FrameMillis) == m + ":"@ + s + ":"@ + f
                    + ","@ + ms + ","@ + all
            },
{
    law_frame_is_within_second(nanos, fps);
    let secs = nanos / 1_000_000_000;
    let total = nanos / 1_000_000;
    let n = frame_in_second(nanos, fps) as nat;
    law_padded_reads_back(secs / 60, 2);
    law_padded_reads_back(secs % 60, 2);
    law_padded_reads_back(n, 2);
    law_padded_reads_back(total % 1000, 3);
    law_decimal_reads_back(total);
    lemma_two_digits(secs % 60);
    lemma_three_digits(total % 1000);
    let m = padded(secs / 60, 2);
    let s = padded(secs % 60, 2);
    let f = padded(n, 2);
    let ms = padded(total % 1000, 3);
    let all = decimal(total);
    assert(is_number(m) && is_number(s) && is_number(f) && is_number(ms) && is_number(all));
    assert(total == secs * 1000 + total % 1000);
    assert(secs == (secs / 60) * 60 + secs % 60);
}

proof fn lemma_two_digits(n: nat)
    requires
        n < 100,
    ensures
        padded(n, 2).len() == 2,
{
    reveal_with_fuel(decimal, 3);
}

proof fn lemma_three_digits(n: nat)
    requires
        n < 1000,
    ensures
        padded(n, 3).len() == 3,
{
    reveal_with_fuel(decimal, 4);
}

/// What stands behind the point reads as the thousandths, each missing place counting as a zero;
/// no zero stands at the end, and there is no point without a digit.
pub proof fn law_fraction_reads_back(thousandths: nat)
    requires
        thousandths < 1000,
    ensures
        thousandths == 0 ==> fraction_text(thousandths).len() == 0,
        thousandths > 0 ==> exists|digits: Seq<char>|
            {
                &&& #[trigger] is_number(digits)
                &&& fraction_text(thousandths) == "."@ + digits
                &&& digits.last() != '0'
                &&& digits.len() == 1 ==> reads(digits) * 100 == thousandths
                &&& digits.len() == 2 ==> reads(digits) * 10 == thousandths
                &&& digits.len() == 3 ==> reads(digits) == thousandths
                &&& digits.len() <= 3
            },
{
    if thousandths > 0 {
        let (value, width) = if thousandths % 100 == 0 {
            (thousandths / 100, 1nat)
        } else if thousandths % 10 == 0 {
            (thousandths / 10, 2nat)
        } else {
            (thousandths, 3nat)
        };
        law_padded_reads_back(value, width);
        let digits = padded(value, width);
        assert(digits.len() == width) by {
            reveal_with_fuel(decimal, 4);
        }
        if width == 1 {
            law_decimal_reads_back(value);
            assert(digits =~= decimal(value));
        }
        assert(is_number(digits));
        assert(reads(digits) == 10 * reads(digits.drop_last()) + (digits.last() as int
            - '0' as int));
    }
}

/// A speed of whole eighths of normal speed is written as a number and a cross: read back, the digits
/// before the point and the thousandths behind it give the speed exactly.
pub proof fn law_speed_reads_back(speed: u64, written: Seq<char>)
    ensures
        speed % 0x8_0000_0000_0000 == 0 ==> exists|whole: Seq<char>, part: nat|
            {
                &&& #[trigger] is_number(whole)
                &&& part < 1000
                &&& speed_text(speed, written) == whole + #[trigger] fraction_text(part) + "x"@
                &&& (reads(whole) * 1000 + part) * 0x40_0000_0000_0000 == speed * 1000
            },
        speed % 0x8_0000_0000_0000 != 0 ==> speed_text(speed, written) == written + "x"@,
{
    if speed % 0x8_0000_0000_0000 == 0 {
        let thousandths = (speed / 0x8_0000_0000_0000 * 125) as nat;
        let part = thousandths % 1000;
        law_decimal_reads_back(thousandths / 1000);
        let whole = decimal(thousandths / 1000);
        assert(is_number(whole));
        assert(speed_text(speed, written) == whole + fraction_text(part) + "x"@);
        assert(speed == (speed / 0x8_0000_0000_0000) * 0x8_0000_0000_0000);
    }
}

/// A hundred times a fraction is rounded to the closest whole number, of two that are equally close
/// to the even one.
pub proof fn law_hundredths_are_closest(num: int, den: int)
    requires
        num >= 0,
        den > 0,
    ensures
        -den <= 2 * (hundredths(num, den) * den - 100 * num) <= den,
        2 * (hundredths(num, den) * den - 100 * num) == den || 2 * (hundredths(num, den) * den - 100
            * num) == -den ==> hundredths(num, den) % 2 == 0,
        hundredths(num, den) >= 0,
{
    let q = 100 * num / den;
    let r = 100 * num % den;
    assert(100 * num == q * den + r && 0 <= r < den && q >= 0) by (nonlinear_arith)
        requires
            num >= 0,
            den > 0,
            q == 100 * num / den,
            r == 100 * num % den,
    ;
    assert((q + 1) * den == q * den + den) by (nonlinear_arith);
}

/// The frames per second are written with two digits behind the point: read back, they are the rate
/// of the media to half a hundredth, with a minus where exactly one of its two parts is negative. A
/// rate without a denominator is written as zero.
pub proof fn law_rate_reads_back(fps: Rational)
    ensures
        exists|whole: Seq<char>, part: Seq<char>|
            {
                &&& #[trigger] is_number(whole)
                &&& #[trigger] is_number(part)
                &&& part.len() == 2
                &&& fps.num > 0 && fps.den < 0 || fps.num < 0 && fps.den > 0 ==> fps_text(fps)
                    == "-"@ + whole + "."@ + part + " fps"@
                &&& fps.num == 0 || fps.den == 0 || (fps.num > 0 && fps.den > 0) || (fps.num < 0
                    && fps.den < 0) ==> fps_text(fps) == whole + "."@ + part + " fps"@
                &&& fps.den == 0 ==> reads(whole) == 0 && reads(part) == 0
                &&& fps.den > 0 && fps.num >= 0 ==> -fps.den <= 2 * ((reads(whole) * 100 + reads(
                    part,
                )) * fps.den - 100 * fps.num) <= fps.den
                &&& fps.den > 0 && fps.num < 0 ==> -fps.den <= 2 * ((reads(whole) * 100 + reads(
                    part,
                )) * fps.den + 100 * fps.num) <= fps.den
                &&& fps.den < 0 && fps.num >= 0 ==> fps.den <= 2 * ((reads(whole) * 100 + reads(
                    part,
                )) * -fps.den - 100 * fps.num) <= -fps.den
                &&& fps.den < 0 && fps.num < 0 ==> fps.den <= 2 * ((reads(whole) * 100 + reads(
                    part,
                )) * -fps.den + 100 * fps.num) <= -fps.den
            },
{
    let (num, den) = (fps.abs_num(), fps.abs_den());
    if fps.den != 0 {
        law_hundredths_are_closest(num, den);
    }
    let h = if fps.den == 0 {
        0
    } else {
        hundredths(num, den)
    };
    let whole = decimal((h / 100) as nat);
    let part = padded((h % 100) as nat, 2);
    law_decimal_reads_back((h / 100) as nat);
    law_padded_reads_back((h % 100) as nat, 2);
    lemma_two_digits((h % 100) as nat);
    assert(is_number(whole) && is_number(part));
    assert(reads(whole) * 100 + reads(part) == h);
    let plain = Seq::<char>::empty() + whole + "."@ + part + " fps"@;
    assert(plain =~= whole + "."@ + part + " fps"@);
}

/// The lines of the panel begin with what they tell, in the language of the player, and a colon; the
/// sizes read back as the width and the height of the pictures, in that order.
pub proof fn law_panel_reads_back<F>(s: ControllerState<F>, written: Seq<char>)
    ensures
        exists|w: Seq<char>, h: Seq<char>|
            {
                &&& #[trigger] is_number(w)
                &&& #[trigger] is_number(h)
                &&& reads(w) == s.video_size.0
                &&& reads(h) == s.video_size.1
                &&& size_line(s) == translated(s.lang, StrKey::Resolution) + ": "@ + w + "x"@ + h
            },
        fps_line(s) == translated(s.lang, StrKey::Fps) + ": "@ + fps_text(s.video_fps),
        speed_line(s, written) == translated(s.lang, StrKey::Speed) + ": "@ + speed_text(
            s.speed,
            written,
        ),
{
    law_decimal_reads_back(s.video_size.0 as nat);
    law_decimal_reads_back(s.video_size.1 as nat);
    let w = decimal(s.video_size.0 as nat);
    let h = decimal(s.video_size.1 as nat);
    assert(is_number(w) && is_number(h));
}

/// The items of the menu begin with their names in the language of the player, and tell the speed,
/// the step and the language that the player has.
pub proof fn law_menu_tells_the_state<F>(s: ControllerState<F>, written: Seq<char>)
    ensures
        menu_text(s, MenuItem::Speed, written) == translated(s.lang, StrKey::Speed) + " "@
            + speed_text(s.speed, written),
        menu_text(s, MenuItem::Step, written) == translated(s.lang, StrKey::Step) + " "@
            + s.seek_step.short_name(s.lang),
        menu_text(s, MenuItem::Info, written) == translated(s.lang, StrKey::Info),
        s.lang == Lang::En ==> menu_text(s, MenuItem::Language, written) == translated(
            Lang::En,
            StrKey::Language,
        ) + " "@ + "English"@,
        s.lang == Lang::Zh ==> menu_text(s, MenuItem::Language, written) == translated(
            Lang::Zh,
            StrKey::Language,
        ) + " "@ + "中文"@,
{
}

/// Each button has the icon of what it does: playing and pausing, sound and silence look different.
pub proof fn law_icons_differ()
    ensures
        ICON_PLAY@ == "icons/play_filled.svg"@,
        ICON_PAUSE@ == "icons/debug_pause.svg"@,
        ICON_VOLUME_ON@ == "icons/audio_on.svg"@,
        ICON_VOLUME_OFF@ == "icons/audio_off.svg"@,
        ICON_MORE@ == "icons/ellipsis_vertical.svg"@,
        ICON_PLAY@ != ICON_PAUSE@,
        ICON_VOLUME_ON@ != ICON_VOLUME_OFF@,
{
    reveal_strlit("icons/play_filled.svg");
    reveal_strlit("icons/debug_pause.svg");
    reveal_strlit("icons/audio_on.svg");
    reveal_strlit("icons/audio_off.svg");
    assert(ICON_PLAY@[6] != ICON_PAUSE@[6]);
    assert(ICON_VOLUME_ON@.len() != ICON_VOLUME_OFF@.len());
}

} // verus!
