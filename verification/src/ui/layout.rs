use ratatui::layout::Rect;
use vstd::prelude::*;

verus! {

/// The smaller of two numbers.
pub open spec fn least(a: int, b: int) -> int {
    if a < b {
        a
    } else {
        b
    }
}

/// A dialog of the given size in the middle of a screen of the given size,
/// measured from the screen's top left corner.
pub open spec fn centered(screen_width: int, screen_height: int, width: int, height: int) -> Rect {
    Rect {
        x: ((screen_width - width) / 2) as u16,
        y: ((screen_height - height) / 2) as u16,
        width: width as u16,
        height: height as u16,
    }
}

/// The area of a dialog of fixed height: as wide as `max_width` if the
/// screen leaves two columns free on either side, else as wide as that
/// leaves. The screen must be at least four columns wide and as high as the
/// dialog.
pub fn fixed_dialog(area: Rect, max_width: u16, height: u16) -> (dialog: Rect)
    requires
        area.width >= 4,
        area.height >= height,
    ensures
        dialog == centered(
            area.width as int,
            area.height as int,
            least(max_width as int, area.width - 4),
            height as int,
        ),
        dialog.x + dialog.width <= area.width,
        dialog.y + dialog.height <= area.height,
{
    let room = area.width - 4;
    let width = if max_width < room {
        max_width
    } else {
        room
    };
    Rect { x: (area.width - width) / 2, y: (area.height - height) / 2, width, height }
}

/// The area of a dialog that gives way in both directions: at most
/// `max_width` by `max_height`, and always two columns and two rows away
/// from the edges. The screen must be at least four columns wide and four
/// rows high.
pub fn fitted_dialog(area: Rect, max_width: u16, max_height: u16) -> (dialog: Rect)
    requires
        area.width >= 4,
        area.height >= 4,
    ensures
        dialog == centered(
            area.width as int,
            area.height as int,
            least(max_width as int, area.width - 4),
            least(max_height as int, area.height - 4),
        ),
        dialog.x + dialog.width <= area.width,
        dialog.y + dialog.height <= area.height,
{
    let rows = area.height - 4;
    let height = if max_height < rows {
        max_height
    } else {
        rows
    };
    fixed_dialog(area, max_width, height)
}

/// Seven tenths of a length, kept between `low` and `high`.
pub open spec fn seven_tenths(length: int, low: int, high: int) -> int {
    let part = least(length * 70 / 100, high);
    if part < low {
        low
    } else {
        part
    }
}

fn part_of(length: u16, low: u16, high: u16) -> (part: u16)
    requires
        low <= high,
    ensures
        part == seven_tenths(length as int, low as int, high as int),
        low <= part <= high,
{
    let scaled: u32 = length as u32 * 70 / 100;
    let capped: u32 = if scaled < high as u32 {
        scaled
    } else {
        high as u32
    };
    if capped < low as u32 {
        low
    } else {
        capped as u16
    }
}

/// The area of the file browser: seven tenths of the screen in both
/// directions, but 40 to 80 columns wide and 10 to 30 rows high, in the
/// middle of the screen where it fits and at its top or left edge where it
/// does not.
pub fn browser_dialog(area: Rect) -> (dialog: Rect)
    ensures
        dialog.width == seven_tenths(area.width as int, 40, 80),
        dialog.height == seven_tenths(area.height as int, 10, 30),
        dialog.x == (if area.width > dialog.width {
            (area.width - dialog.width) / 2
        } else {
            0
        }),
        dialog.y == (if area.height > dialog.height {
            (area.height - dialog.height) / 2
        } else {
            0
        }),
{
    let width = part_of(area.width, 40, 80);
    let height = part_of(area.height, 10, 30);
    let x = if area.width > width {
        (area.width - width) / 2
    } else {
        0
    };
    let y = if area.height > height {
        (area.height - height) / 2
    } else {
        0
    };
    Rect { x, y, width, height }
}

} // verus!
