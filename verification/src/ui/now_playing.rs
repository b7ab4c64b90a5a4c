use crate::text::push_char;
use ratatui::layout::Rect;
use vstd::prelude::*;
use vstd::string::StringExecFns;
use vstd::string::StringSliceAdditionalSpecFns;
use vstd::utf8::{decode_utf8, encode_utf8, encode_utf8_decode_utf8, is_char_boundary};

verus! {

/// The character for a decimal digit.
pub open spec fn digit_char(d: nat) -> char
    recommends
        d < 10,
{
    (48 + d) as u8 as char
}

/// The decimal numeral of `n`, without leading zeros.
pub open spec fn decimal(n: nat) -> Seq<char>
    decreases n,
{
    if n < 10 {
        seq![digit_char(n)]
    } else {
        decimal(n / 10).push(digit_char(n % 10))
    }
}

/// A time as minutes and seconds: the minutes as they are, a colon, the
/// seconds in two digits.
pub open spec fn clock_text(secs: nat) -> Seq<char> {
    decimal(secs / 60) + seq![':', digit_char((secs % 60) / 10), digit_char((secs % 60) % 10)]
}

fn digit(d: u8) -> (c: char)
    requires
        d < 10,
    ensures
        c == digit_char(d as nat),
{
    (48u8 + d) as char
}

/// Appends the decimal numeral of `n` to `out`.
fn push_decimal(out: &mut String, n: u64)
    ensures
        final(out)@ == old(out)@ + decimal(n as nat),
    decreases n,
{
    if n < 10 {
        push_char(out, digit(n as u8));
        assert(final(out)@ =~= old(out)@ + decimal(n as nat));
    } else {
        push_decimal(out, n / 10);
        push_char(out, digit((n % 10) as u8));
        assert(final(out)@ =~= old(out)@ + decimal(n as nat));
    }
}

/// Minutes and seconds for the time line, as in `3:07`.
pub fn format_duration(secs: u64) -> (text: String)
    ensures
        text@ == clock_text(secs as nat),
{
    let mins = secs / 60;
    let rest = (secs % 60) as u8;
    let mut text = String::new();
    push_decimal(&mut text, mins);
    push_char(&mut text, ':');
    push_char(&mut text, digit(rest / 10));
    push_char(&mut text, digit(rest % 10));
    assert(text@ =~= clock_text(secs as nat));
    text
}

/// The first `n` bytes of the UTF-8 form of `s`, read as text.
pub open spec fn byte_prefix(s: Seq<char>, n: int) -> Seq<char> {
    decode_utf8(encode_utf8(s).subrange(0, n))
}

/// Where `truncate_string` cuts a string that is longer than `max_len`
/// bytes: three bytes early when there is room for an ellipsis.
pub open spec fn cut_point(max_len: usize) -> int {
    if max_len > 3 {
        max_len - 3
    } else {
        max_len as int
    }
}

/// `s` cut to at most `max_len` bytes. A string that is too long ends in an
/// ellipsis where `max_len` leaves room for one. The cut must fall between
/// two characters.
pub fn truncate_string(s: &str, max_len: usize) -> (text: String)
    requires
        encode_utf8(s@).len() > max_len ==> is_char_boundary(encode_utf8(s@), cut_point(max_len)),
    ensures
        encode_utf8(s@).len() <= max_len ==> text@ == s@,
        encode_utf8(s@).len() > max_len && max_len > 3 ==> text@ == byte_prefix(s@, max_len - 3)
            + "..."@,
        encode_utf8(s@).len() > max_len && max_len <= 3 ==> text@ == byte_prefix(s@, max_len as int),
{
    if s.as_bytes().len() <= max_len {
        String::from_str(s)
    } else if max_len > 3 {
        let (head, _) = s.split_at(max_len - 3);
        proof {
            encode_utf8_decode_utf8(head@);
            assert(encode_utf8(head@) == encode_utf8(s@).subrange(0, max_len - 3));
        }
        String::from_str(head).concat("...")
    } else {
        let (head, _) = s.split_at(max_len);
        proof {
            encode_utf8_decode_utf8(head@);
            assert(encode_utf8(head@) == encode_utf8(s@).subrange(0, max_len as int));
        }
        String::from_str(head)
    }
}

/// Width of each playback button, in columns.
pub const BUTTON_WIDTH: u16 = 4;

/// Columns that the controls line needs to the right of its left edge.
pub const CONTROLS_WIDTH: u16 = 22;

/// Where the controls of the now-playing panel stand in their line.
#[derive(Clone, Copy)]
pub struct ControlsLayout {
    pub prev_btn: Rect,
    pub play_btn: Rect,
    pub next_btn: Rect,
    /// Column of the shuffle sign.
    pub shuffle_x: u16,
    /// Column of the repeat sign.
    pub repeat_x: u16,
    /// Column where the volume is written.
    pub volume_x: u16,
}

/// A button of the controls line, one row high.
pub open spec fn button_at(x: int, y: u16) -> Rect {
    Rect { x: x as u16, y, width: BUTTON_WIDTH, height: 1 }
}

/// The controls from left to right, beginning one column into the line:
/// three buttons a column apart, then the signs for shuffle and repeat and
/// the volume.
pub fn controls_layout(area: Rect) -> (layout: ControlsLayout)
    requires
        area.x + CONTROLS_WIDTH <= u16::MAX,
    ensures
        layout.prev_btn == button_at(area.x + 1, area.y),
        layout.play_btn == button_at(area.x + 6, area.y),
        layout.next_btn == button_at(area.x + 11, area.y),
        layout.shuffle_x == area.x + 17,
        layout.repeat_x == area.x + 19,
        layout.volume_x == area.x + 22,
{
    let y = area.y;
    let mut x = area.x + 1;
    let prev_btn = Rect { x, y, width: BUTTON_WIDTH, height: 1 };
    x += BUTTON_WIDTH + 1;
    let play_btn = Rect { x, y, width: BUTTON_WIDTH, height: 1 };
    x += BUTTON_WIDTH + 1;
    let next_btn = Rect { x, y, width: BUTTON_WIDTH, height: 1 };
    x += BUTTON_WIDTH + 2;
    let shuffle_x = x;
    x += 2;
    let repeat_x = x;
    x += 3;
    ControlsLayout { prev_btn, play_btn, next_btn, shuffle_x, repeat_x, volume_x: x }
}

/// Where the progress line puts its parts.
#[derive(Clone, Copy)]
pub struct ProgressLayout {
    /// Column where the length of the track is written.
    pub duration_x: u16,
    /// The bar between the two times.
    pub bar: Rect,
}

/// The progress line: the elapsed time one column in, the length of the
/// track ending one column before the right edge, and between them, two
/// columns away from either, the bar. `position_len` and `duration_len` are
/// the widths of the two times. The line must be wide enough for the length
/// of the track and the two columns before it.
pub fn progress_layout(area: Rect, position_len: u16, duration_len: u16) -> (layout: ProgressLayout)
    requires
        area.x + area.width <= u16::MAX,
        area.x + position_len + 2 <= u16::MAX,
        area.x + area.width >= duration_len + 3,
    ensures
        layout.duration_x == area.x + area.width - duration_len - 1,
        layout.bar.x == area.x + position_len + 2,
        layout.bar.y == area.y,
        layout.bar.height == 1,
        layout.bar.width == (if layout.duration_x - 2 > layout.bar.x {
            layout.duration_x - 2 - layout.bar.x
        } else {
            0
        }),
{
    let duration_x = area.x + area.width - duration_len - 1;
    let bar_start = area.x + position_len + 2;
    let bar_end = duration_x - 2;
    let width = if bar_end > bar_start {
        bar_end - bar_start
    } else {
        0
    };
    ProgressLayout { duration_x, bar: Rect { x: bar_start, y: area.y, width, height: 1 } }
}

} // verus!
