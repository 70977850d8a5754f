//! Tests of the display control backend: size queries, resizing, clearing
//! and scrolling over a console snapshot.

use termcore::error::{ErrorKind, SizingFailure};
use termcore::terminal::{ClearType, Coord, Screen, Size, WindowPositions};

fn screen(buffer: Size, window: WindowPositions, cursor: Coord) -> Screen {
    Screen::new(buffer, window, cursor, 7, Coord { x: 500, y: 500 }).unwrap()
}

fn default_screen() -> Screen {
    screen(
        Size { width: 120, height: 80 },
        WindowPositions { left: 0, top: 0, right: 79, bottom: 29 },
        Coord { x: 0, y: 0 },
    )
}

#[test]
fn test_resize_winapi() {
    let mut screen = default_screen();
    let (width, height) = screen.size();

    screen.set_size(30, 30).unwrap();
    assert_eq!((30, 30), screen.size());

    // reset to previous size
    screen.set_size(width, height).unwrap();
    assert_eq!((width, height), screen.size());
}

#[test]
fn test_scroll_down_winapi() {
    let mut screen = default_screen();
    let current_window = screen.window;

    assert!(screen.scroll_down(2));

    let new_window = screen.window;
    assert_eq!(new_window.top, current_window.top + 2);
    assert_eq!(new_window.bottom, current_window.bottom + 2);
}

#[test]
fn test_scroll_up_winapi() {
    // move the terminal buffer down before moving it up
    let mut screen = default_screen();
    assert!(screen.scroll_down(2));

    let current_window = screen.window;

    assert!(screen.scroll_up(2));

    let new_window = screen.window;
    assert_eq!(new_window.top, current_window.top - 2);
    assert_eq!(new_window.bottom, current_window.bottom - 2);
}

#[test]
fn size_is_one_based() {
    let s = screen(
        Size { width: 100, height: 50 },
        WindowPositions { left: 5, top: 3, right: 84, bottom: 27 },
        Coord { x: 0, y: 0 },
    );
    assert_eq!(s.size(), (80, 25));
}

#[test]
fn set_size_rejects_zero_width_without_mutation() {
    let mut s = default_screen();
    let before = s;
    let r = s.set_size(0, 10);
    assert!(matches!(
        r,
        Err(ErrorKind::ResizingTerminalFailure(SizingFailure::WidthTooSmall))
    ));
    assert_eq!(s, before);
}

#[test]
fn set_size_rejects_zero_height_without_mutation() {
    let mut s = default_screen();
    let before = s;
    let r = s.set_size(10, 0);
    assert!(matches!(
        r,
        Err(ErrorKind::ResizingTerminalFailure(SizingFailure::HeightTooSmall))
    ));
    assert_eq!(s, before);
}

#[test]
fn set_size_rejects_an_origin_too_close_to_the_coordinate_limit() {
    let mut s = screen(
        Size { width: 32767, height: 50 },
        WindowPositions { left: 32000, top: 0, right: 32050, bottom: 29 },
        Coord { x: 0, y: 0 },
    );
    let before = s;
    let r = s.set_size(1000, 20);
    assert!(matches!(
        r,
        Err(ErrorKind::ResizingTerminalFailure(SizingFailure::WidthRangeExceeded))
    ));
    assert_eq!(s, before);
}

#[test]
fn set_size_rejects_a_top_edge_too_close_to_the_coordinate_limit() {
    let mut s = screen(
        Size { width: 120, height: 32767 },
        WindowPositions { left: 0, top: 32000, right: 79, bottom: 32040 },
        Coord { x: 0, y: 0 },
    );
    let before = s;
    let r = s.set_size(80, 1000);
    assert!(matches!(
        r,
        Err(ErrorKind::ResizingTerminalFailure(SizingFailure::HeightRangeExceeded))
    ));
    assert_eq!(s, before);
}

#[test]
fn set_size_reports_a_failed_buffer_restore_and_leaves_the_buffer_grown() {
    // the requested window does not fit the buffer: the buffer grows, the
    // window is resized, and the shrink-back cannot succeed; the partial
    // mutation stays observable
    let mut s = screen(
        Size { width: 80, height: 30 },
        WindowPositions { left: 0, top: 0, right: 79, bottom: 29 },
        Coord { x: 0, y: 0 },
    );
    let r = s.set_size(100, 30);
    assert!(matches!(
        r,
        Err(ErrorKind::ResizingTerminalFailure(SizingFailure::BufferRestoreFailed))
    ));
    assert_eq!(s.buffer, Size { width: 100, height: 30 });
    assert_eq!(s.size(), (100, 30));
}

#[test]
fn set_size_reports_the_offending_dimension_beyond_the_platform_maximum() {
    let mut s = Screen::new(
        Size { width: 200, height: 100 },
        WindowPositions { left: 0, top: 0, right: 39, bottom: 19 },
        Coord { x: 0, y: 0 },
        7,
        Coord { x: 50, y: 50 },
    )
    .unwrap();
    let r = s.set_size(60, 20);
    assert!(matches!(
        r,
        Err(ErrorKind::ResizingTerminalFailure(SizingFailure::WidthLargerThanMax(60)))
    ));
    // the window was already resized when the limit check failed
    assert_eq!(s.size(), (60, 20));

    let r = s.set_size(20, 60);
    assert!(matches!(
        r,
        Err(ErrorKind::ResizingTerminalFailure(SizingFailure::HeightLargerThanMax(60)))
    ));
    assert_eq!(s.size(), (20, 60));
}

#[test]
fn clear_current_line_overwrites_one_row_and_homes_the_cursor_in_it() {
    // 80-column buffer, cursor on row 5: exactly 80 cells are overwritten
    // starting at column 0 of row 5, and the cursor lands on (0, 5)
    let mut s = screen(
        Size { width: 80, height: 30 },
        WindowPositions { left: 0, top: 0, right: 79, bottom: 29 },
        Coord { x: 17, y: 5 },
    );
    let region = s.clear(ClearType::CurrentLine);
    assert_eq!(region.start, Coord { x: 0, y: 5 });
    assert_eq!(region.cells, 80);
    assert_eq!(region.cursor, Coord { x: 0, y: 5 });
    assert_eq!(s.cursor, Coord { x: 0, y: 5 });
    assert_eq!(region.attribute, 7);
}

#[test]
fn clear_all_overwrites_the_buffer_and_homes_the_cursor() {
    let mut s = screen(
        Size { width: 80, height: 30 },
        WindowPositions { left: 0, top: 0, right: 79, bottom: 29 },
        Coord { x: 17, y: 5 },
    );
    let region = s.clear(ClearType::All);
    assert_eq!(region.start, Coord { x: 0, y: 0 });
    assert_eq!(region.cells, 80 * 30);
    assert_eq!(s.cursor, Coord { x: 0, y: 0 });
}

#[test]
fn clear_before_cursor_counts_full_rows_plus_the_cursor_cell() {
    let mut s = screen(
        Size { width: 10, height: 8 },
        WindowPositions { left: 0, top: 0, right: 9, bottom: 7 },
        Coord { x: 3, y: 2 },
    );
    let region = s.clear(ClearType::FromCursorUp);
    assert_eq!(region.start, Coord { x: 0, y: 0 });
    assert_eq!(region.cells, 10 * 2 + 3 + 1);
    // the cursor stays where it was
    assert_eq!(s.cursor, Coord { x: 3, y: 2 });
}

#[test]
fn clear_until_line_covers_the_rest_of_the_row() {
    let mut s = screen(
        Size { width: 10, height: 8 },
        WindowPositions { left: 0, top: 0, right: 9, bottom: 7 },
        Coord { x: 3, y: 2 },
    );
    let region = s.clear(ClearType::UntilNewLine);
    assert_eq!(region.start, Coord { x: 3, y: 2 });
    assert_eq!(region.cells, 7);
    assert_eq!(s.cursor, Coord { x: 3, y: 2 });
}

#[test]
fn clear_after_cursor_starts_at_the_cursor() {
    let mut s = screen(
        Size { width: 10, height: 8 },
        WindowPositions { left: 0, top: 0, right: 9, bottom: 7 },
        Coord { x: 3, y: 2 },
    );
    let region = s.clear(ClearType::FromCursorDown);
    assert_eq!(region.start, Coord { x: 3, y: 2 });
    assert_eq!(region.cells, 10 * 8);
    assert_eq!(s.cursor, Coord { x: 3, y: 2 });
}

#[test]
fn scrolling_refuses_to_move_past_the_buffer_edges() {
    let mut s = default_screen();
    let before = s;
    // the window already touches the top
    assert!(!s.scroll_up(1));
    assert_eq!(s, before);

    // 80 rows, window ends at 29: room for 50 more, not 51
    assert!(!s.scroll_down(51));
    assert_eq!(s, before);
    assert!(s.scroll_down(50));
    assert_eq!(s.window.bottom, 79);
    assert!(!s.scroll_down(1));
}

#[test]
fn screen_snapshots_are_validated() {
    // window beyond the buffer
    assert!(Screen::new(
        Size { width: 10, height: 10 },
        WindowPositions { left: 0, top: 0, right: 10, bottom: 5 },
        Coord { x: 0, y: 0 },
        7,
        Coord { x: 5, y: 5 },
    )
    .is_none());
    assert!(Screen::new(
        Size { width: 10, height: 10 },
        WindowPositions { left: 0, top: 0, right: 9, bottom: 9 },
        Coord { x: 0, y: 0 },
        7,
        Coord { x: 5, y: 5 },
    )
    .is_some());
}

#[test]
fn sizing_failures_carry_descriptive_messages() {
    assert_eq!(
        SizingFailure::WidthTooSmall.description(),
        "Cannot set the terminal width lower than 1."
    );
    assert_eq!(
        SizingFailure::HeightTooSmall.description(),
        "Cannot set the terminal height lower than 1."
    );
    assert!(!ErrorKind::ResizingTerminalFailure(SizingFailure::BufferRestoreFailed)
        .description()
        .is_empty());
}
