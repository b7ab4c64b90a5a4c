use ratatui::style::Color;
use vstd::prelude::*;

verus! {

#[verifier::external_type_specification]
pub struct ExColor(ratatui::style::Color);

/// The block characters that fill a cell to eighths of its height, from
/// the empty cell to the full one.
pub open spec fn block_of(eighths: int) -> char {
    if eighths <= 0 {
        ' '
    } else if eighths == 1 {
        '▁'
    } else if eighths == 2 {
        '▂'
    } else if eighths == 3 {
        '▃'
    } else if eighths == 4 {
        '▄'
    } else if eighths == 5 {
        '▅'
    } else if eighths == 6 {
        '▆'
    } else if eighths == 7 {
        '▇'
    } else {
        '█'
    }
}

/// The character for the given number of eighths, eight or more giving the
/// full block.
pub fn block(eighths: usize) -> (c: char)
    ensures
        c == block_of(eighths as int),
{
    if eighths == 0 {
        ' '
    } else if eighths == 1 {
        '▁'
    } else if eighths == 2 {
        '▂'
    } else if eighths == 3 {
        '▃'
    } else if eighths == 4 {
        '▄'
    } else if eighths == 5 {
        '▅'
    } else if eighths == 6 {
        '▆'
    } else if eighths == 7 {
        '▇'
    } else {
        '█'
    }
}

/// The part of a bar of `bar_height` eighths that falls into the cell
/// `row_from_bottom` rows above the bottom row, in eighths of that cell.
pub open spec fn cell_fill(bar_height: int, row_from_bottom: int) -> int {
    let bottom = row_from_bottom * 8;
    if bar_height >= bottom + 8 {
        8
    } else if bar_height > bottom {
        bar_height - bottom
    } else {
        0
    }
}

/// The character that shows a bar of `bar_height` eighths in the cell
/// `row_from_bottom` rows above the bottom row.
pub fn cell_char(bar_height: usize, row_from_bottom: u16) -> (c: char)
    ensures
        c == block_of(cell_fill(bar_height as int, row_from_bottom as int)),
{
    let bottom: usize = row_from_bottom as usize * 8;
    if bar_height >= bottom && bar_height - bottom >= 8 {
        block(8)
    } else if bar_height > bottom {
        block(bar_height - bottom)
    } else {
        block(0)
    }
}

/// The bar that is drawn in column `x` of `width` columns when `num_bars`
/// bars are spread over them.
pub fn bar_for_column(x: u16, num_bars: usize, width: u16) -> (bar: usize)
    requires
        width > 0,
        x < width,
    ensures
        bar == (x as int * num_bars as int) / (width as int),
        num_bars > 0 ==> bar < num_bars,
{
    assert(0 <= x as int * num_bars as int <= 0xffff * 0xffff_ffff_ffff_ffff) by (nonlinear_arith)
        requires
            0 <= x <= 0xffff,
            0 <= num_bars <= 0xffff_ffff_ffff_ffff,
    ;
    let product: u128 = x as u128 * num_bars as u128;
    let bar = product / (width as u128);
    proof {
        if num_bars > 0 {
            assert((x as int * num_bars as int) / (width as int) < num_bars as int)
                by (nonlinear_arith)
                requires
                    0 <= x < width,
                    num_bars > 0,
            ;
        } else {
            assert(x as int * num_bars as int == 0) by (nonlinear_arith)
                requires
                    num_bars == 0,
            ;
        }
        assert((x as int * num_bars as int) / (width as int) <= num_bars as int) by (nonlinear_arith)
            requires
                0 <= x < width,
                num_bars >= 0,
        ;
    }
    bar as usize
}

/// Red, green and blue of a colour, for blending. Named colours have the
/// values of their pure form; a colour without such values is a middle
/// gray.
pub open spec fn rgb_of(color: Color) -> (u8, u8, u8) {
    match color {
        Color::Rgb(r, g, b) => (r, g, b),
        Color::Green => (0u8, 255u8, 0u8),
        Color::Yellow => (255u8, 255u8, 0u8),
        Color::Red => (255u8, 0u8, 0u8),
        Color::Cyan => (0u8, 255u8, 255u8),
        Color::Magenta => (255u8, 0u8, 255u8),
        Color::Blue => (0u8, 0u8, 255u8),
        Color::White => (255u8, 255u8, 255u8),
        Color::LightGreen => (144u8, 238u8, 144u8),
        Color::LightYellow => (255u8, 255u8, 224u8),
        Color::LightRed => (255u8, 128u8, 128u8),
        Color::LightCyan => (224u8, 255u8, 255u8),
        Color::LightMagenta => (255u8, 128u8, 255u8),
        Color::LightBlue => (173u8, 216u8, 230u8),
        _ => (128u8, 128u8, 128u8),
    }
}

/// Red, green and blue of a colour.
pub fn color_to_rgb(color: Color) -> (rgb: (u8, u8, u8))
    ensures
        rgb == rgb_of(color),
{
    match color {
        Color::Rgb(r, g, b) => (r, g, b),
        Color::Green => (0, 255, 0),
        Color::Yellow => (255, 255, 0),
        Color::Red => (255, 0, 0),
        Color::Cyan => (0, 255, 255),
        Color::Magenta => (255, 0, 255),
        Color::Blue => (0, 0, 255),
        Color::White => (255, 255, 255),
        Color::LightGreen => (144, 238, 144),
        Color::LightYellow => (255, 255, 224),
        Color::LightRed => (255, 128, 128),
        Color::LightCyan => (224, 255, 255),
        Color::LightMagenta => (255, 128, 255),
        Color::LightBlue => (173, 216, 230),
        _ => (128, 128, 128),
    }
}

} // verus!
