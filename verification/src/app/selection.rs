use crate::app::modes::Panel;
use ratatui::layout::Rect;
use vstd::prelude::*;

verus! {

#[verifier::external_type_specification]
pub struct ExRect(ratatui::layout::Rect);

/// Where the parts of the screen were drawn last, for finding what the
/// mouse points at.
#[derive(Clone, Copy)]
pub struct LayoutAreas {
    pub watched_section: Rect,
    pub library_section: Rect,
    pub playlists_section: Rect,
    pub track_list: Rect,
    pub now_playing: Rect,
    pub np_prev_btn: Rect,
    pub np_play_btn: Rect,
    pub np_next_btn: Rect,
    pub np_progress_bar: Rect,
}

/// The rectangle without extent at the top left corner.
pub open spec fn empty_rect() -> Rect {
    Rect { x: 0, y: 0, width: 0, height: 0 }
}

impl Default for LayoutAreas {
    /// No area has been drawn yet: every rectangle is empty.
    fn default() -> (areas: Self)
        ensures
            areas.watched_section == empty_rect(),
            areas.library_section == empty_rect(),
            areas.playlists_section == empty_rect(),
            areas.track_list == empty_rect(),
            areas.now_playing == empty_rect(),
            areas.np_prev_btn == empty_rect(),
            areas.np_play_btn == empty_rect(),
            areas.np_next_btn == empty_rect(),
            areas.np_progress_bar == empty_rect(),
            forall|x: u16, y: u16| areas.panel_under(x, y) is None && areas.control_under(x, y) is None,
    {
        let empty = Rect { x: 0, y: 0, width: 0, height: 0 };
        LayoutAreas {
            watched_section: empty,
            library_section: empty,
            playlists_section: empty,
            track_list: empty,
            now_playing: empty,
            np_prev_btn: empty,
            np_play_btn: empty,
            np_next_btn: empty,
            np_progress_bar: empty,
        }
    }
}

/// Whether the cell in column `x` and row `y` lies inside `rect`.
pub open spec fn rect_contains(rect: Rect, x: u16, y: u16) -> bool {
    rect.x <= x < rect.x + rect.width && rect.y <= y < rect.y + rect.height
}

/// Whether the cell in column `x` and row `y` lies inside `rect`.
pub fn point_in_rect(x: u16, y: u16, rect: Rect) -> (inside: bool)
    ensures
        inside == rect_contains(rect, x, y),
{
    let right: u32 = rect.x as u32 + rect.width as u32;
    let bottom: u32 = rect.y as u32 + rect.height as u32;
    x >= rect.x && (x as u32) < right && y >= rect.y && (y as u32) < bottom
}

impl LayoutAreas {
    /// The panel under a cell. Where panels overlap the earlier in the order
    /// watched folders, library, playlists, tracks, now playing wins.
    pub open spec fn panel_under(self, x: u16, y: u16) -> Option<Panel> {
        if rect_contains(self.watched_section, x, y) {
            Some(Panel::WatchedFolders)
        } else if rect_contains(self.library_section, x, y) {
            Some(Panel::Library)
        } else if rect_contains(self.playlists_section, x, y) {
            Some(Panel::Playlists)
        } else if rect_contains(self.track_list, x, y) {
            Some(Panel::Tracks)
        } else if rect_contains(self.now_playing, x, y) {
            Some(Panel::NowPlaying)
        } else {
            None
        }
    }

    /// The panel under the cell in column `x` and row `y`, if any.
    pub fn panel_at(&self, x: u16, y: u16) -> (panel: Option<Panel>)
        ensures
            panel == self.panel_under(x, y),
    {
        if point_in_rect(x, y, self.watched_section) {
            Some(Panel::WatchedFolders)
        } else if point_in_rect(x, y, self.library_section) {
            Some(Panel::Library)
        } else if point_in_rect(x, y, self.playlists_section) {
            Some(Panel::Playlists)
        } else if point_in_rect(x, y, self.track_list) {
            Some(Panel::Tracks)
        } else if point_in_rect(x, y, self.now_playing) {
            Some(Panel::NowPlaying)
        } else {
            None
        }
    }
}

/// The controls of the now-playing panel.
#[derive(Debug, Clone, Copy, PartialEq, Eq, Structural)]
pub enum Control {
    Previous,
    PlayPause,
    Next,
    /// The progress bar, with the column of the click counted from its left
    /// end and the width of the bar.
    Progress { offset: u16, width: u16 },
}

impl LayoutAreas {
    /// The control under a cell: the buttons come before the progress bar,
    /// and a bar without width takes no clicks.
    pub open spec fn control_under(self, x: u16, y: u16) -> Option<Control> {
        if rect_contains(self.np_prev_btn, x, y) {
            Some(Control::Previous)
        } else if rect_contains(self.np_play_btn, x, y) {
            Some(Control::PlayPause)
        } else if rect_contains(self.np_next_btn, x, y) {
            Some(Control::Next)
        } else if rect_contains(self.np_progress_bar, x, y) && self.np_progress_bar.width > 0 {
            Some(
                Control::Progress {
                    offset: (x - self.np_progress_bar.x) as u16,
                    width: self.np_progress_bar.width,
                },
            )
        } else {
            None
        }
    }

    /// The control of the now-playing panel under a click, if any.
    pub fn control_at(&self, x: u16, y: u16) -> (control: Option<Control>)
        ensures
            control == self.control_under(x, y),
    {
        if point_in_rect(x, y, self.np_prev_btn) {
            Some(Control::Previous)
        } else if point_in_rect(x, y, self.np_play_btn) {
            Some(Control::PlayPause)
        } else if point_in_rect(x, y, self.np_next_btn) {
            Some(Control::Next)
        } else if point_in_rect(x, y, self.np_progress_bar) && self.np_progress_bar.width > 0 {
            Some(
                Control::Progress {
                    offset: x - self.np_progress_bar.x,
                    width: self.np_progress_bar.width,
                },
            )
        } else {
            None
        }
    }

    /// The bar as it counts for a drag: only the progress bar follows the
    /// mouse while a button is held.
    pub fn drag_at(&self, x: u16, y: u16) -> (control: Option<Control>)
        ensures
            control == (if rect_contains(self.np_progress_bar, x, y) && self.np_progress_bar.width
                > 0 {
                Some(
                    Control::Progress {
                        offset: (x - self.np_progress_bar.x) as u16,
                        width: self.np_progress_bar.width,
                    },
                )
            } else {
                None
            }),
    {
        if point_in_rect(x, y, self.np_progress_bar) && self.np_progress_bar.width > 0 {
            Some(
                Control::Progress {
                    offset: x - self.np_progress_bar.x,
                    width: self.np_progress_bar.width,
                },
            )
        } else {
            None
        }
    }
}

/// The offset that shows row `selected` in a window of `visible` rows which
/// so far began at `offset`: the window moves down until the row is its
/// last, or up until the row is its first.
pub open spec fn scrolled_to(selected: int, offset: int, visible: int) -> int {
    let down = if selected >= offset + visible {
        selected - visible + 1
    } else {
        offset
    };
    if selected < down {
        selected
    } else {
        down
    }
}

/// With at least one visible row the selected row is inside the window
/// after scrolling.
pub proof fn lemma_scrolled_shows_selection(selected: int, offset: int, visible: int)
    requires
        0 <= selected,
        0 <= offset,
        visible > 0,
    ensures
        scrolled_to(selected, offset, visible) <= selected < scrolled_to(selected, offset, visible)
            + visible,
        offset <= selected < offset + visible ==> scrolled_to(selected, offset, visible) == offset,
{
}

/// The cursor after a step up: one less, but never below the first item.
pub open spec fn stepped_up(cursor: int) -> int {
    if cursor > 0 {
        cursor - 1
    } else {
        cursor
    }
}

/// The cursor after a step down in a list of `count` items: one more, but
/// never beyond the last item.
pub open spec fn stepped_down(cursor: int, count: int) -> int {
    if cursor + 1 < count {
        cursor + 1
    } else {
        cursor
    }
}

/// Moves a cursor up by one item.
pub fn move_up(cursor: usize) -> (moved: usize)
    ensures
        moved == stepped_up(cursor as int),
{
    if cursor > 0 {
        cursor - 1
    } else {
        cursor
    }
}

/// Moves a cursor down by one item in a list of `count` items.
pub fn move_down(cursor: usize, count: usize) -> (moved: usize)
    ensures
        moved == stepped_down(cursor as int, count as int),
{
    if cursor < count && cursor + 1 < count {
        cursor + 1
    } else {
        cursor
    }
}

/// A cursor that is at or beyond the end of a list that has become shorter
/// goes back by one, if it can.
pub fn cursor_after_removal(cursor: usize, count: usize) -> (moved: usize)
    ensures
        moved == (if cursor > 0 && cursor >= count {
            cursor - 1
        } else {
            cursor as int
        }),
{
    if cursor > 0 && cursor >= count {
        cursor - 1
    } else {
        cursor
    }
}

/// A selection that has fallen off the end of a list goes to its last item,
/// or to 0 in an empty list.
pub fn clamp_selection(selected: usize, count: usize) -> (clamped: usize)
    ensures
        clamped == (if selected >= count {
            if count > 0 {
                count - 1
            } else {
                0
            }
        } else {
            selected as int
        }),
{
    if selected >= count {
        if count > 0 {
            count - 1
        } else {
            0
        }
    } else {
        selected
    }
}

/// The rows of the track list that a list area of the given height shows:
/// what is left of it without the two border rows and the header row.
pub open spec fn visible_track_rows(area_height: u16) -> int {
    if area_height > 3 {
        area_height - 3
    } else {
        0
    }
}

/// The scroll offset of the track list that keeps `selected` in view. An
/// area too small to show any row leaves the offset alone.
pub fn ensure_track_visible(selected: usize, offset: usize, area_height: u16) -> (scrolled: usize)
    ensures
        visible_track_rows(area_height) == 0 ==> scrolled == offset,
        visible_track_rows(area_height) > 0 ==> scrolled == scrolled_to(
            selected as int,
            offset as int,
            visible_track_rows(area_height),
        ),
{
    let visible: usize = if area_height > 3 {
        (area_height - 3) as usize
    } else {
        0
    };
    if visible == 0 {
        return offset;
    }
    let below = match offset.checked_add(visible) {
        Some(end) => selected >= end,
        None => false,
    };
    let down = if below {
        selected - visible + 1
    } else {
        offset
    };
    if selected < down {
        selected
    } else {
        down
    }
}

/// The selection and scroll offset of the track list.
#[derive(Debug, Clone, Copy, PartialEq, Eq, Structural)]
pub struct TrackCursor {
    pub selected: usize,
    pub offset: usize,
}

impl TrackCursor {
    /// One track up; the list scrolls up with a selection that leaves it at
    /// the top.
    pub fn up(self) -> (moved: Self)
        ensures
            self.selected == 0 ==> moved == self,
            self.selected > 0 ==> moved.selected == self.selected - 1 && moved.offset == (
            if moved.selected < self.offset {
                moved.selected
            } else {
                self.offset
            }),
    {
        if self.selected > 0 {
            let selected = self.selected - 1;
            let offset = if selected < self.offset {
                selected
            } else {
                self.offset
            };
            TrackCursor { selected, offset }
        } else {
            self
        }
    }

    /// One track down in a list of `count` tracks shown in an area of the
    /// given height; the list scrolls to keep the selection in view.
    pub fn down(self, count: usize, area_height: u16) -> (moved: Self)
        ensures
            self.selected + 1 >= count ==> moved == self,
            self.selected + 1 < count ==> {
                &&& moved.selected == self.selected + 1
                &&& visible_track_rows(area_height) == 0 ==> moved.offset == self.offset
                &&& visible_track_rows(area_height) > 0 ==> moved.offset == scrolled_to(
                    moved.selected as int,
                    self.offset as int,
                    visible_track_rows(area_height),
                )
            },
    {
        if self.selected < count && self.selected + 1 < count {
            let selected = self.selected + 1;
            TrackCursor { selected, offset: ensure_track_visible(selected, self.offset, area_height) }
        } else {
            self
        }
    }
}

/// Which kind of list a click fell into.
#[derive(Debug, Clone, Copy, PartialEq, Eq, Structural)]
pub enum ListKind {
    /// A list whose first row is its first item.
    Plain,
    /// The track list: a header row first, then the tracks from `offset` on.
    Tracks { offset: usize },
}

/// The item that a click in row `y` of a bordered list selects, as a
/// mathematical statement: nothing in an empty list, on a border or on the
/// header; else the item in the clicked row, or the last item where the
/// click fell below the list's end.
pub open spec fn clicked_item(y: u16, area: Rect, item_count: usize, kind: ListKind) -> Option<int> {
    let first_row = area.y + 1;
    let rows = if area.height > 2 {
        area.height - 2
    } else {
        0
    };
    if item_count == 0 || !(first_row <= y < first_row + rows) {
        None
    } else {
        let row = y - first_row;
        match kind {
            ListKind::Plain => Some(
                if row < item_count - 1 {
                    row
                } else {
                    item_count - 1
                },
            ),
            ListKind::Tracks { offset } => if row < 1 {
                None
            } else if offset + (row - 1) < item_count - 1 {
                Some(offset + (row - 1))
            } else {
                Some(item_count - 1)
            },
        }
    }
}

/// The index of the item that a click in row `y` selects in a list drawn
/// in `area`.
pub fn handle_panel_click(y: u16, area: Rect, item_count: usize, kind: ListKind) -> (index: Option<
    usize,
>)
    ensures
        match clicked_item(y, area, item_count, kind) {
            Some(i) => index == Some(i as usize) && 0 <= i < item_count,
            None => index is None,
        },
{
    if item_count == 0 {
        return None;
    }
    let first_row: u32 = area.y as u32 + 1;
    let rows: u32 = if area.height > 2 {
        (area.height - 2) as u32
    } else {
        0
    };
    let row_y: u32 = y as u32;
    if row_y >= first_row && row_y < first_row + rows {
        let row: usize = (row_y - first_row) as usize;
        match kind {
            ListKind::Plain => Some(
                if row < item_count - 1 {
                    row
                } else {
                    item_count - 1
                },
            ),
            ListKind::Tracks { offset } => {
                if row < 1 {
                    return None;
                }
                let visual = row - 1;
                match offset.checked_add(visual) {
                    Some(actual) => Some(
                        if actual < item_count - 1 {
                            actual
                        } else {
                            item_count - 1
                        },
                    ),
                    None => Some(item_count - 1),
                }
            },
        }
    } else {
        None
    }
}

/// The cursor after one notch of the wheel over a list of `item_count`
/// items.
pub fn handle_mouse_scroll(cursor: usize, item_count: usize, up: bool) -> (moved: usize)
    ensures
        moved == (if up {
            stepped_up(cursor as int)
        } else {
            stepped_down(cursor as int, item_count as int)
        }),
{
    if up {
        move_up(cursor)
    } else {
        move_down(cursor, item_count)
    }
}

} // verus!
