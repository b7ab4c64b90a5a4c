use auric::config::theme::Theme;
use auric::config::ThemePreset;
use auric::ui::layout::{browser_dialog, fitted_dialog, fixed_dialog};
use auric::ui::spectrum::{bar_for_column, block, cell_char, color_to_rgb};
use ratatui::layout::Rect;
use ratatui::style::Color;

#[test]
fn fixed_dialogs_are_centred() {
    let screen = Rect::new(0, 0, 100, 40);
    assert_eq!(fixed_dialog(screen, 60, 5), Rect::new(20, 17, 60, 5));
    assert_eq!(fixed_dialog(screen, 40, 5), Rect::new(30, 17, 40, 5));
    let narrow = Rect::new(0, 0, 30, 10);
    assert_eq!(fixed_dialog(narrow, 60, 5), Rect::new(2, 2, 26, 5));
    assert_eq!(fixed_dialog(Rect::new(0, 0, 4, 5), 60, 5), Rect::new(2, 0, 0, 5));
    assert_eq!(fixed_dialog(Rect::new(7, 9, 100, 40), 60, 5), Rect::new(20, 17, 60, 5));
}

#[test]
fn fitted_dialogs_give_way() {
    let screen = Rect::new(0, 0, 100, 40);
    assert_eq!(fitted_dialog(screen, 50, 20), Rect::new(25, 10, 50, 20));
    assert_eq!(fitted_dialog(screen, 50, 12), Rect::new(25, 14, 50, 12));
    let small = Rect::new(0, 0, 40, 16);
    assert_eq!(fitted_dialog(small, 50, 20), Rect::new(2, 2, 36, 12));
    assert_eq!(fitted_dialog(Rect::new(0, 0, 4, 4), 50, 20), Rect::new(2, 2, 0, 0));
}

#[test]
fn browser_dialog_sizes() {
    assert_eq!(browser_dialog(Rect::new(0, 0, 100, 40)), Rect::new(15, 6, 70, 28));
    assert_eq!(browser_dialog(Rect::new(0, 0, 200, 60)), Rect::new(60, 15, 80, 30));
    assert_eq!(browser_dialog(Rect::new(0, 0, 50, 12)), Rect::new(5, 1, 40, 10));
    assert_eq!(browser_dialog(Rect::new(0, 0, 30, 8)), Rect::new(0, 0, 40, 10));
    let huge = Rect { x: 0, y: 0, width: u16::MAX, height: u16::MAX };
    assert_eq!(browser_dialog(huge), Rect { x: 32_727, y: 32_752, width: 80, height: 30 });
}

#[test]
fn block_characters() {
    let blocks: Vec<char> = (0..=9).map(block).collect();
    assert_eq!(blocks, vec![' ', '▁', '▂', '▃', '▄', '▅', '▆', '▇', '█', '█']);
}

#[test]
fn bar_cells() {
    // A bar of 19 eighths: two full cells and three eighths of the third.
    assert_eq!(cell_char(19, 0), '█');
    assert_eq!(cell_char(19, 1), '█');
    assert_eq!(cell_char(19, 2), '▃');
    assert_eq!(cell_char(19, 3), ' ');
    assert_eq!(cell_char(0, 0), ' ');
    assert_eq!(cell_char(8, 0), '█');
    assert_eq!(cell_char(8, 1), ' ');
    assert_eq!(cell_char(7, 0), '▇');
    assert_eq!(cell_char(usize::MAX, 65_535), '█');
}

#[test]
fn bars_spread_over_columns() {
    assert_eq!(bar_for_column(0, 32, 32), 0);
    assert_eq!(bar_for_column(31, 32, 32), 31);
    assert_eq!(bar_for_column(0, 32, 64), 0);
    assert_eq!(bar_for_column(1, 32, 64), 0);
    assert_eq!(bar_for_column(63, 32, 64), 31);
    assert_eq!(bar_for_column(5, 32, 10), 16);
    assert_eq!(bar_for_column(9, 32, 10), 28);
    assert_eq!(bar_for_column(3, 0, 10), 0);
    assert_eq!(bar_for_column(65_534, usize::MAX, 65_535), usize::MAX - usize::MAX / 65_535);
}

#[test]
fn colours_in_red_green_blue() {
    assert_eq!(color_to_rgb(Color::Rgb(1, 2, 3)), (1, 2, 3));
    assert_eq!(color_to_rgb(Color::Green), (0, 255, 0));
    assert_eq!(color_to_rgb(Color::Yellow), (255, 255, 0));
    assert_eq!(color_to_rgb(Color::Red), (255, 0, 0));
    assert_eq!(color_to_rgb(Color::Cyan), (0, 255, 255));
    assert_eq!(color_to_rgb(Color::Magenta), (255, 0, 255));
    assert_eq!(color_to_rgb(Color::Blue), (0, 0, 255));
    assert_eq!(color_to_rgb(Color::White), (255, 255, 255));
    assert_eq!(color_to_rgb(Color::LightGreen), (144, 238, 144));
    assert_eq!(color_to_rgb(Color::LightYellow), (255, 255, 224));
    assert_eq!(color_to_rgb(Color::LightRed), (255, 128, 128));
    assert_eq!(color_to_rgb(Color::LightCyan), (224, 255, 255));
    assert_eq!(color_to_rgb(Color::LightMagenta), (255, 128, 255));
    assert_eq!(color_to_rgb(Color::LightBlue), (173, 216, 230));
    assert_eq!(color_to_rgb(Color::Black), (128, 128, 128));
    assert_eq!(color_to_rgb(Color::Reset), (128, 128, 128));
    assert_eq!(color_to_rgb(Color::Indexed(7)), (128, 128, 128));
    assert_eq!(color_to_rgb(Color::DarkGray), (128, 128, 128));
}

#[test]
fn default_theme_colours() {
    let t = Theme::default_theme();
    assert_eq!(t.background, Color::Reset);
    assert_eq!(t.foreground, Color::White);
    assert_eq!(t.border_active, Color::Cyan);
    assert_eq!(t.accent_secondary, Color::Magenta);
    assert_eq!(t.error, Color::Red);
    assert_eq!(t.spectrum_low, Color::Green);
    assert_eq!(t.spectrum_mid, Color::Yellow);
    assert_eq!(t.spectrum_high, Color::Red);
    assert_eq!(t.hint_text, Color::DarkGray);
    assert_eq!(Theme::default().selection_fg, Color::Black);
}

#[test]
fn dracula_theme_colours() {
    let t = Theme::dracula();
    assert_eq!(t.background, Color::Rgb(40, 42, 54));
    assert_eq!(t.foreground, Color::Rgb(248, 248, 242));
    assert_eq!(t.foreground_dim, Color::Rgb(98, 114, 164));
    assert_eq!(t.border_active, Color::Rgb(189, 147, 249));
    assert_eq!(t.selection_fg, Color::Rgb(40, 42, 54));
    assert_eq!(t.accent_secondary, Color::Rgb(255, 121, 198));
    assert_eq!(t.error, Color::Rgb(255, 85, 85));
    assert_eq!(t.info, Color::Rgb(139, 233, 253));
    assert_eq!(t.header, Color::Rgb(255, 184, 108));
    assert_eq!(t.input_bg, Color::Rgb(68, 71, 90));
    assert_eq!(t.hint_key, Color::Rgb(241, 250, 140));
}

#[test]
fn gruvbox_theme_colours() {
    let t = Theme::gruvbox();
    assert_eq!(t.background, Color::Rgb(40, 40, 40));
    assert_eq!(t.foreground, Color::Rgb(235, 219, 178));
    assert_eq!(t.border_active, Color::Rgb(250, 189, 47));
    assert_eq!(t.border_highlight, Color::Rgb(254, 128, 25));
    assert_eq!(t.accent_tertiary, Color::Rgb(142, 192, 124));
    assert_eq!(t.success, Color::Rgb(184, 187, 38));
    assert_eq!(t.error, Color::Rgb(251, 73, 52));
    assert_eq!(t.info, Color::Rgb(131, 165, 152));
    assert_eq!(t.input_bg, Color::Rgb(60, 56, 54));
    assert_eq!(t.hint_text, Color::Rgb(146, 131, 116));
}

#[test]
fn presets_give_their_themes() {
    assert_eq!(ThemePreset::Default.theme().border_active, Color::Cyan);
    assert_eq!(ThemePreset::Dracula.theme().border_active, Color::Rgb(189, 147, 249));
    assert_eq!(ThemePreset::Gruvbox.theme().border_active, Color::Rgb(250, 189, 47));
}

#[test]
fn controls_line() {
    let layout = auric::ui::now_playing::controls_layout(Rect::new(34, 5, 40, 1));
    assert_eq!(layout.prev_btn, Rect::new(35, 5, 4, 1));
    assert_eq!(layout.play_btn, Rect::new(40, 5, 4, 1));
    assert_eq!(layout.next_btn, Rect::new(45, 5, 4, 1));
    assert_eq!(layout.shuffle_x, 51);
    assert_eq!(layout.repeat_x, 53);
    assert_eq!(layout.volume_x, 56);
    let edge = auric::ui::now_playing::controls_layout(Rect { x: 65_513, y: 0, width: 1, height: 1 });
    assert_eq!(edge.volume_x, 65_535);
}

#[test]
fn progress_line() {
    let layout = auric::ui::now_playing::progress_layout(Rect::new(34, 6, 40, 1), 4, 5);
    assert_eq!(layout.duration_x, 68);
    assert_eq!(layout.bar, Rect::new(40, 6, 26, 1));
    let tight = auric::ui::now_playing::progress_layout(Rect::new(0, 0, 12, 1), 4, 4);
    assert_eq!(tight.duration_x, 7);
    assert_eq!(tight.bar, Rect::new(6, 0, 0, 1));
    let exact = auric::ui::now_playing::progress_layout(Rect::new(0, 0, 14, 1), 4, 4);
    assert_eq!(exact.bar, Rect::new(6, 0, 1, 1));
}
