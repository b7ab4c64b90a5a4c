use auric::app::selection::{
    clamp_selection, cursor_after_removal, ensure_track_visible, handle_mouse_scroll,
    handle_panel_click, move_down, move_up, point_in_rect, Control, ListKind, TrackCursor,
};
use auric::app::{LayoutAreas, Panel};
use ratatui::layout::Rect;

#[test]
fn point_in_rect_is_half_open() {
    let r = Rect::new(10, 5, 4, 2);
    assert!(point_in_rect(10, 5, r));
    assert!(point_in_rect(13, 6, r));
    assert!(!point_in_rect(14, 5, r));
    assert!(!point_in_rect(10, 7, r));
    assert!(!point_in_rect(9, 5, r));
    assert!(!point_in_rect(10, 4, r));
    assert!(!point_in_rect(0, 0, Rect::new(0, 0, 0, 0)));
    assert!(!point_in_rect(0, 0, Rect::new(0, 0, 5, 0)));
}

#[test]
fn point_in_rect_at_the_edge_of_the_numbers() {
    let r = Rect { x: 65_530, y: 65_530, width: 100, height: 100 };
    assert!(point_in_rect(65_535, 65_535, r));
    assert!(point_in_rect(65_530, 65_530, r));
    assert!(!point_in_rect(65_529, 65_535, r));
}

fn areas() -> LayoutAreas {
    LayoutAreas {
        watched_section: Rect::new(0, 1, 20, 5),
        library_section: Rect::new(0, 6, 20, 6),
        playlists_section: Rect::new(0, 12, 20, 6),
        track_list: Rect::new(20, 9, 60, 9),
        now_playing: Rect::new(20, 1, 26, 8),
        np_prev_btn: Rect::new(35, 5, 4, 1),
        np_play_btn: Rect::new(40, 5, 4, 1),
        np_next_btn: Rect::new(45, 5, 4, 1),
        np_progress_bar: Rect::new(27, 6, 10, 1),
    }
}

#[test]
fn panel_under_the_mouse() {
    let a = areas();
    assert_eq!(a.panel_at(0, 1), Some(Panel::WatchedFolders));
    assert_eq!(a.panel_at(19, 5), Some(Panel::WatchedFolders));
    assert_eq!(a.panel_at(5, 6), Some(Panel::Library));
    assert_eq!(a.panel_at(5, 17), Some(Panel::Playlists));
    assert_eq!(a.panel_at(20, 9), Some(Panel::Tracks));
    assert_eq!(a.panel_at(79, 17), Some(Panel::Tracks));
    assert_eq!(a.panel_at(30, 3), Some(Panel::NowPlaying));
    assert_eq!(a.panel_at(0, 0), None);
    assert_eq!(a.panel_at(50, 3), None);
    assert_eq!(a.panel_at(80, 9), None);
    assert_eq!(LayoutAreas::default().panel_at(0, 0), None);
}

#[test]
fn controls_under_the_mouse() {
    let a = areas();
    assert_eq!(a.control_at(35, 5), Some(Control::Previous));
    assert_eq!(a.control_at(38, 5), Some(Control::Previous));
    assert_eq!(a.control_at(39, 5), None);
    assert_eq!(a.control_at(41, 5), Some(Control::PlayPause));
    assert_eq!(a.control_at(48, 5), Some(Control::Next));
    assert_eq!(a.control_at(27, 6), Some(Control::Progress { offset: 0, width: 10 }));
    assert_eq!(a.control_at(36, 6), Some(Control::Progress { offset: 9, width: 10 }));
    assert_eq!(a.control_at(37, 6), None);
    assert_eq!(a.drag_at(30, 6), Some(Control::Progress { offset: 3, width: 10 }));
    assert_eq!(a.drag_at(41, 5), None);
    assert_eq!(LayoutAreas::default().control_at(0, 0), None);
    assert_eq!(LayoutAreas::default().drag_at(0, 0), None);
}

#[test]
fn cursor_steps() {
    assert_eq!(move_up(3), 2);
    assert_eq!(move_up(0), 0);
    assert_eq!(move_down(0, 3), 1);
    assert_eq!(move_down(2, 3), 2);
    assert_eq!(move_down(0, 0), 0);
    assert_eq!(move_down(7, 3), 7);
    assert_eq!(move_down(usize::MAX, usize::MAX), usize::MAX);
    assert_eq!(handle_mouse_scroll(3, 10, true), 2);
    assert_eq!(handle_mouse_scroll(0, 10, true), 0);
    assert_eq!(handle_mouse_scroll(3, 10, false), 4);
    assert_eq!(handle_mouse_scroll(9, 10, false), 9);
}

#[test]
fn cursors_after_a_list_got_shorter() {
    assert_eq!(cursor_after_removal(2, 2), 1);
    assert_eq!(cursor_after_removal(2, 3), 2);
    assert_eq!(cursor_after_removal(0, 0), 0);
    assert_eq!(cursor_after_removal(5, 1), 4);
    assert_eq!(clamp_selection(5, 3), 2);
    assert_eq!(clamp_selection(2, 3), 2);
    assert_eq!(clamp_selection(3, 3), 2);
    assert_eq!(clamp_selection(4, 0), 0);
}

#[test]
fn track_list_scrolls_with_the_selection() {
    // A list area of height 8 shows 5 tracks.
    assert_eq!(ensure_track_visible(4, 0, 8), 0);
    assert_eq!(ensure_track_visible(5, 0, 8), 1);
    assert_eq!(ensure_track_visible(12, 0, 8), 8);
    assert_eq!(ensure_track_visible(2, 6, 8), 2);
    assert_eq!(ensure_track_visible(7, 6, 8), 6);
    assert_eq!(ensure_track_visible(9, 4, 3), 4);
    assert_eq!(ensure_track_visible(9, 4, 0), 4);
    assert_eq!(ensure_track_visible(9, 4, 4), 9);
    assert_eq!(ensure_track_visible(3, usize::MAX, 8), 3);
}

#[test]
fn track_cursor_moves() {
    let c = TrackCursor { selected: 5, offset: 5 };
    assert_eq!(c.up(), TrackCursor { selected: 4, offset: 4 });
    assert_eq!(TrackCursor { selected: 5, offset: 2 }.up(), TrackCursor { selected: 4, offset: 2 });
    assert_eq!(TrackCursor { selected: 0, offset: 0 }.up(), TrackCursor { selected: 0, offset: 0 });
    assert_eq!(
        TrackCursor { selected: 4, offset: 0 }.down(10, 8),
        TrackCursor { selected: 5, offset: 1 }
    );
    assert_eq!(
        TrackCursor { selected: 2, offset: 0 }.down(10, 8),
        TrackCursor { selected: 3, offset: 0 }
    );
    assert_eq!(
        TrackCursor { selected: 9, offset: 5 }.down(10, 8),
        TrackCursor { selected: 9, offset: 5 }
    );
    assert_eq!(
        TrackCursor { selected: 0, offset: 0 }.down(0, 8),
        TrackCursor { selected: 0, offset: 0 }
    );
    assert_eq!(
        TrackCursor { selected: 4, offset: 0 }.down(10, 2),
        TrackCursor { selected: 5, offset: 0 }
    );
}

#[test]
fn clicks_in_a_plain_list() {
    let area = Rect::new(0, 6, 20, 6);
    assert_eq!(handle_panel_click(6, area, 3, ListKind::Plain), None);
    assert_eq!(handle_panel_click(7, area, 3, ListKind::Plain), Some(0));
    assert_eq!(handle_panel_click(8, area, 3, ListKind::Plain), Some(1));
    assert_eq!(handle_panel_click(9, area, 3, ListKind::Plain), Some(2));
    assert_eq!(handle_panel_click(10, area, 3, ListKind::Plain), Some(2));
    assert_eq!(handle_panel_click(11, area, 3, ListKind::Plain), None);
    assert_eq!(handle_panel_click(5, area, 3, ListKind::Plain), None);
    assert_eq!(handle_panel_click(7, area, 0, ListKind::Plain), None);
    assert_eq!(handle_panel_click(1, Rect::new(0, 0, 5, 2), 3, ListKind::Plain), None);
}

#[test]
fn clicks_in_the_track_list() {
    let area = Rect::new(20, 9, 60, 9);
    let kind = ListKind::Tracks { offset: 4 };
    assert_eq!(handle_panel_click(9, area, 100, kind), None);
    assert_eq!(handle_panel_click(10, area, 100, kind), None);
    assert_eq!(handle_panel_click(11, area, 100, kind), Some(4));
    assert_eq!(handle_panel_click(16, area, 100, kind), Some(9));
    assert_eq!(handle_panel_click(17, area, 100, kind), None);
    assert_eq!(handle_panel_click(16, area, 7, kind), Some(6));
    assert_eq!(handle_panel_click(11, area, 2, kind), Some(1));
    assert_eq!(
        handle_panel_click(12, area, 5, ListKind::Tracks { offset: usize::MAX }),
        Some(4)
    );
    assert_eq!(
        handle_panel_click(65_535, Rect { x: 0, y: 65_533, width: 5, height: 9 }, 5, ListKind::Plain),
        Some(1)
    );
}
