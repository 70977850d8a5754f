//! The display control backend: boundary-exact arithmetic for querying and
//! resizing the visible window and for clearing and scrolling the character
//! grid, over an explicit snapshot of the console surface. Applying the
//! computed mutations to the native console is the caller's part.

use vstd::prelude::*;

use crate::error::{ErrorKind, SizingFailure};

verus! {

/// A buffer coordinate `(column, row)`, zero-based.
#[derive(Clone, Copy, Debug, PartialEq, Eq, Structural)]
pub struct Coord {
    pub x: i16,
    pub y: i16,
}

/// A buffer size in cells.
#[derive(Clone, Copy, Debug, PartialEq, Eq, Structural)]
pub struct Size {
    pub width: i16,
    pub height: i16,
}

/// The visible window inside the screen buffer, as inclusive edge
/// coordinates.
#[derive(Clone, Copy, Debug, PartialEq, Eq, Structural)]
pub struct WindowPositions {
    pub left: i16,
    pub top: i16,
    pub right: i16,
    pub bottom: i16,
}

/// Which region a clear overwrites.
#[derive(Clone, Copy, Debug, PartialEq, Eq, Structural)]
pub enum ClearType {
    /// The entire screen buffer.
    All,
    /// From the cursor to the end of the buffer.
    FromCursorDown,
    /// From the start of the buffer up to and including the cursor.
    FromCursorUp,
    /// The cursor's whole line.
    CurrentLine,
    /// From the cursor to the end of its line.
    UntilNewLine,
}

/// A computed, ephemeral clear: overwrite `cells` cells starting at `start`
/// with blank content at display attribute `attribute`, then place the
/// cursor at `cursor`. Every clear ends with an explicit cursor placement.
#[derive(Clone, Copy, Debug, PartialEq, Eq, Structural)]
pub struct ClearRegion {
    pub start: Coord,
    pub cells: u32,
    pub attribute: u16,
    pub cursor: Coord,
}

/// The region cleared from the cursor to the end of the buffer: a cursor
/// past the outer right edge first wraps to the start of the next row.
pub fn clear_after_cursor(location: Coord, buffer_size: Size, current_attribute: u16) -> (r:
    ClearRegion)
    requires
        0 <= location.x,
        0 <= location.y < i16::MAX,
        0 <= buffer_size.width,
        0 <= buffer_size.height,
    ensures
        r.start == (if location.x > buffer_size.width {
            (Coord { x: 0, y: (location.y + 1) as i16 })
        } else {
            location
        }),
        r.cells == buffer_size.width as int * buffer_size.height as int,
        r.attribute == current_attribute,
        r.cursor == location,
{
    let mut x = location.x;
    let mut y = location.y;
    if x > buffer_size.width {
        y = y + 1;
        x = 0;
    }
    proof {
        assert(buffer_size.width as int * buffer_size.height as int <= 32767 * 32767)
            by (nonlinear_arith)
            requires
                0 <= buffer_size.width <= 32767,
                0 <= buffer_size.height <= 32767,
        ;
    }
    let cells_to_write = buffer_size.width as u32 * buffer_size.height as u32;
    ClearRegion {
        start: Coord { x, y },
        cells: cells_to_write,
        attribute: current_attribute,
        cursor: location,
    }
}

/// The region cleared from the start of the buffer up to and including the
/// cursor.
pub fn clear_before_cursor(location: Coord, buffer_size: Size, current_attribute: u16) -> (r:
    ClearRegion)
    requires
        0 <= location.x,
        0 <= location.y,
        0 <= buffer_size.width,
    ensures
        r.start == (Coord { x: 0 as i16, y: 0 as i16 }),
        r.cells == buffer_size.width as int * location.y as int + location.x as int + 1,
        r.attribute == current_attribute,
        r.cursor == location,
{
    proof {
        assert(buffer_size.width as int * location.y as int <= 32767 * 32767) by (nonlinear_arith)
            requires
                0 <= buffer_size.width <= 32767,
                0 <= location.y <= 32767,
        ;
    }
    let cells_to_write = (buffer_size.width as u32 * location.y as u32) + (location.x as u32 + 1);
    ClearRegion {
        start: Coord { x: 0, y: 0 },
        cells: cells_to_write,
        attribute: current_attribute,
        cursor: location,
    }
}

/// The region clearing the entire screen; the cursor is placed back at the
/// top-left cell.
pub fn clear_entire_screen(buffer_size: Size, current_attribute: u16) -> (r: ClearRegion)
    requires
        0 <= buffer_size.width,
        0 <= buffer_size.height,
    ensures
        r.start == (Coord { x: 0 as i16, y: 0 as i16 }),
        r.cells == buffer_size.width as int * buffer_size.height as int,
        r.attribute == current_attribute,
        r.cursor == (Coord { x: 0 as i16, y: 0 as i16 }),
{
    proof {
        assert(buffer_size.width as int * buffer_size.height as int <= 32767 * 32767)
            by (nonlinear_arith)
            requires
                0 <= buffer_size.width <= 32767,
                0 <= buffer_size.height <= 32767,
        ;
    }
    let cells_to_write = buffer_size.width as u32 * buffer_size.height as u32;
    ClearRegion {
        start: Coord { x: 0, y: 0 },
        cells: cells_to_write,
        attribute: current_attribute,
        cursor: Coord { x: 0, y: 0 },
    }
}

/// The region clearing the cursor's whole line; the cursor is placed back at
/// the first cell of that row.
pub fn clear_current_line(location: Coord, buffer_size: Size, current_attribute: u16) -> (r:
    ClearRegion)
    requires
        0 <= buffer_size.width,
    ensures
        r.start == (Coord { x: 0 as i16, y: location.y }),
        r.cells == buffer_size.width as int,
        r.attribute == current_attribute,
        r.cursor == (Coord { x: 0 as i16, y: location.y }),
{
    ClearRegion {
        start: Coord { x: 0, y: location.y },
        cells: buffer_size.width as u32,
        attribute: current_attribute,
        cursor: Coord { x: 0, y: location.y },
    }
}

/// The region cleared from the cursor to the end of its line; the cursor is
/// placed back where it was.
pub fn clear_until_line(location: Coord, buffer_size: Size, current_attribute: u16) -> (r:
    ClearRegion)
    requires
        0 <= location.x <= buffer_size.width,
    ensures
        r.start == location,
        r.cells == buffer_size.width as int - location.x as int,
        r.attribute == current_attribute,
        r.cursor == location,
{
    ClearRegion {
        start: location,
        cells: (buffer_size.width - location.x) as u32,
        attribute: current_attribute,
        cursor: location,
    }
}

/// Whether the screen buffer must grow for a window of `width` columns to
/// fit it without clipping, keeping the window's left origin.
pub open spec fn needs_width_growth(s: Screen, width: u16) -> bool {
    (s.buffer.width as int) < s.window.left as int + width as int
}

/// Whether the screen buffer must grow for a window of `height` rows to fit
/// it without clipping, keeping the window's top origin.
pub open spec fn needs_height_growth(s: Screen, height: u16) -> bool {
    (s.buffer.height as int) < s.window.top as int + height as int
}

/// The failure `set_size` reports for this request, if any, in the order the
/// steps take them: zero dimensions are rejected first, then a window origin
/// too close to the coordinate limit, then the shrink-back of a buffer that
/// had to grow, then the platform's largest supported window.
pub open spec fn set_size_failure(s: Screen, width: u16, height: u16) -> Option<SizingFailure> {
    if width == 0 {
        Some(SizingFailure::WidthTooSmall)
    } else if height == 0 {
        Some(SizingFailure::HeightTooSmall)
    } else if needs_width_growth(s, width) && s.window.left as int >= i16::MAX as int
        - width as int {
        Some(SizingFailure::WidthRangeExceeded)
    } else if needs_height_growth(s, height) && s.window.top as int >= i16::MAX as int
        - height as int {
        Some(SizingFailure::HeightRangeExceeded)
    } else if needs_width_growth(s, width) || needs_height_growth(s, height) {
        Some(SizingFailure::BufferRestoreFailed)
    } else if width as int > s.max_window.x as int {
        Some(SizingFailure::WidthLargerThanMax(width))
    } else if height as int > s.max_window.y as int {
        Some(SizingFailure::HeightLargerThanMax(height))
    } else {
        None
    }
}

/// A snapshot of the console surface: buffer dimensions, the visible window,
/// the cursor, the current display attribute, and the platform's largest
/// supported window size, read from the native console immediately before an
/// operation.
#[derive(Clone, Copy, Debug, PartialEq, Eq, Structural)]
pub struct Screen {
    pub buffer: Size,
    pub window: WindowPositions,
    pub cursor: Coord,
    pub attribute: u16,
    pub max_window: Coord,
}

impl Screen {
    /// The snapshot is consistent: the buffer is non-empty, the window and
    /// the cursor lie within it, and the platform bounds are non-negative.
    pub open spec fn wf(&self) -> bool {
        &&& 1 <= self.buffer.width
        &&& 1 <= self.buffer.height
        &&& 0 <= self.window.left <= self.window.right < self.buffer.width
        &&& 0 <= self.window.top <= self.window.bottom < self.buffer.height
        &&& 0 <= self.cursor.x <= self.buffer.width
        &&& 0 <= self.cursor.y < self.buffer.height
        &&& 0 <= self.max_window.x
        &&& 0 <= self.max_window.y
    }

    /// Build a snapshot after checking its consistency.
    pub fn new(
        buffer: Size,
        window: WindowPositions,
        cursor: Coord,
        attribute: u16,
        max_window: Coord,
    ) -> (r: Option<Screen>)
        ensures
            ({
                let s = Screen { buffer, window, cursor, attribute, max_window };
                match r {
                    Some(screen) => screen == s && s.wf(),
                    None => !s.wf(),
                }
            }),
    {
        let s = Screen { buffer, window, cursor, attribute, max_window };
        if 1 <= buffer.width && 1 <= buffer.height && 0 <= window.left && window.left
            <= window.right && window.right < buffer.width && 0 <= window.top && window.top
            <= window.bottom && window.bottom < buffer.height && 0 <= cursor.x && cursor.x
            <= buffer.width && 0 <= cursor.y && cursor.y < buffer.height && 0 <= max_window.x && 0
            <= max_window.y {
            Some(s)
        } else {
            None
        }
    }

    /// The terminal size `(columns, rows)` of the visible window. The top
    /// left cell is represented `1,1`: the native zero-based extents are
    /// translated to the one-based convention.
    pub fn size(&self) -> (r: (u16, u16))
        requires
            self.wf(),
        ensures
            r.0 == self.window.right - self.window.left + 1,
            r.1 == self.window.bottom - self.window.top + 1,
    {
        let width = self.window.right - self.window.left;
        let height = self.window.bottom - self.window.top;
        ((width + 1) as u16, (height + 1) as u16)
    }

    /// Set the visible window to `width` columns and `height` rows,
    /// preserving its top-left origin. The buffer is grown first when the
    /// window would not fit it, and shrunk back afterwards; the steps are
    /// not transactional, so a failure partway leaves the partial mutation
    /// observable, and a shrink-back that cannot succeed surfaces as its own
    /// failure rather than being silently swallowed.
    pub fn set_size(&mut self, width: u16, height: u16) -> (r: Result<(), ErrorKind>)
        requires
            old(self).wf(),
            width <= i16::MAX as u16,
            height <= i16::MAX as u16,
        ensures
            final(self).wf(),
            r is Ok <==> set_size_failure(*old(self), width, height) is None,
            r is Err ==> r->Err_0 == ErrorKind::ResizingTerminalFailure(
                set_size_failure(*old(self), width, height)->Some_0,
            ),
            // rejected before anything was touched: no partial mutation
            (match set_size_failure(*old(self), width, height) {
                Some(SizingFailure::WidthTooSmall) => true,
                Some(SizingFailure::HeightTooSmall) => true,
                Some(SizingFailure::WidthRangeExceeded) => true,
                Some(SizingFailure::HeightRangeExceeded) => true,
                _ => false,
            }) ==> *final(self) == *old(self),
            // past the validation steps the window is resized, even on a
            // later failure
            (match set_size_failure(*old(self), width, height) {
                Some(SizingFailure::WidthTooSmall) => false,
                Some(SizingFailure::HeightTooSmall) => false,
                Some(SizingFailure::WidthRangeExceeded) => false,
                Some(SizingFailure::HeightRangeExceeded) => false,
                _ => true,
            }) ==> {
                &&& final(self).window.left == old(self).window.left
                &&& final(self).window.top == old(self).window.top
                &&& final(self).window.right as int == old(self).window.left as int + width as int
                    - 1
                &&& final(self).window.bottom as int == old(self).window.top as int
                    + height as int - 1
                &&& final(self).cursor == old(self).cursor
                &&& final(self).attribute == old(self).attribute
                &&& final(self).max_window == old(self).max_window
            },
            // the buffer is back at its size unless the shrink-back failed,
            // in which case it is left grown
            (set_size_failure(*old(self), width, height) matches Some(
                SizingFailure::BufferRestoreFailed,
            )) ==> {
                &&& final(self).buffer.width as int == (if needs_width_growth(
                    *old(self),
                    width,
                ) {
                    old(self).window.left as int + width as int
                } else {
                    old(self).buffer.width as int
                })
                &&& final(self).buffer.height as int == (if needs_height_growth(
                    *old(self),
                    height,
                ) {
                    old(self).window.top as int + height as int
                } else {
                    old(self).buffer.height as int
                })
            },
            !(set_size_failure(*old(self), width, height) matches Some(
                SizingFailure::BufferRestoreFailed,
            )) ==> final(self).buffer == old(self).buffer,
    {
        if width == 0 {
            return Err(ErrorKind::ResizingTerminalFailure(SizingFailure::WidthTooSmall));
        }
        if height == 0 {
            return Err(ErrorKind::ResizingTerminalFailure(SizingFailure::HeightTooSmall));
        }

        let current_size = self.buffer;
        let window = self.window;

        let mut new_size = Size { width: current_size.width, height: current_size.height };
        let mut resize_buffer = false;

        let width = width as i16;
        if (current_size.width as i32) < window.left as i32 + width as i32 {
            if window.left >= i16::MAX - width {
                return Err(ErrorKind::ResizingTerminalFailure(SizingFailure::WidthRangeExceeded));
            }
            new_size.width = window.left + width;
            resize_buffer = true;
        }
        let height = height as i16;
        if (current_size.height as i32) < window.top as i32 + height as i32 {
            if window.top >= i16::MAX - height {
                return Err(ErrorKind::ResizingTerminalFailure(SizingFailure::HeightRangeExceeded));
            }
            new_size.height = window.top + height;
            resize_buffer = true;
        }

        if resize_buffer {
            // the grown buffer always accommodates both the old window and
            // the requested one
            self.buffer = new_size;
        }

        // preserve the position, but change the size
        self.window.bottom = window.top + height - 1;
        self.window.right = window.left + width - 1;

        if resize_buffer {
            // the buffer can only shrink back to a size that still contains
            // the resized window; a window that needed growth never fits, so
            // this surfaces as its own failure with the buffer left grown
            if self.window.right < current_size.width && self.window.bottom
                < current_size.height {
                self.buffer = current_size;
            } else {
                return Err(ErrorKind::ResizingTerminalFailure(SizingFailure::BufferRestoreFailed));
            }
        }

        if width > self.max_window.x {
            return Err(
                ErrorKind::ResizingTerminalFailure(SizingFailure::WidthLargerThanMax(width as u16)),
            );
        }
        if height > self.max_window.y {
            return Err(
                ErrorKind::ResizingTerminalFailure(
                    SizingFailure::HeightLargerThanMax(height as u16),
                ),
            );
        }

        Ok(())
    }

    /// Clear the given region of the buffer, overwriting its cells with
    /// blanks at the current display attribute, and place the cursor at the
    /// region's kind-specific target.
    pub fn clear(&mut self, clear_type: ClearType) -> (r: ClearRegion)
        requires
            old(self).wf(),
        ensures
            final(self).wf(),
            final(self).buffer == old(self).buffer,
            final(self).window == old(self).window,
            final(self).attribute == old(self).attribute,
            final(self).max_window == old(self).max_window,
            final(self).cursor == r.cursor,
            r.attribute == old(self).attribute,
            match clear_type {
                ClearType::All => r == clear_region_all(*old(self)),
                ClearType::FromCursorDown => r == clear_region_after_cursor(*old(self)),
                ClearType::FromCursorUp => r == clear_region_before_cursor(*old(self)),
                ClearType::CurrentLine => r == clear_region_current_line(*old(self)),
                ClearType::UntilNewLine => r == clear_region_until_line(*old(self)),
            },
    {
        let pos = self.cursor;
        let buffer_size = self.buffer;
        let current_attribute = self.attribute;

        let region = match clear_type {
            ClearType::All => clear_entire_screen(buffer_size, current_attribute),
            ClearType::FromCursorDown => clear_after_cursor(pos, buffer_size, current_attribute),
            ClearType::FromCursorUp => clear_before_cursor(pos, buffer_size, current_attribute),
            ClearType::CurrentLine => clear_current_line(pos, buffer_size, current_attribute),
            ClearType::UntilNewLine => clear_until_line(pos, buffer_size, current_attribute),
        };
        self.cursor = region.cursor;
        region
    }

    /// Move the visible window up by `row_count` rows within the buffer,
    /// refusing (a no-op, not an error) to move past the buffer's top edge.
    /// Reports whether the window moved.
    pub fn scroll_up(&mut self, row_count: u16) -> (moved: bool)
        requires
            old(self).wf(),
            row_count <= i16::MAX as u16,
        ensures
            final(self).wf(),
            moved == (old(self).window.top >= row_count),
            moved ==> {
                &&& final(self).window.top == old(self).window.top - row_count
                &&& final(self).window.bottom == old(self).window.bottom - row_count
                &&& final(self).window.left == old(self).window.left
                &&& final(self).window.right == old(self).window.right
                &&& final(self).buffer == old(self).buffer
                &&& final(self).cursor == old(self).cursor
                &&& final(self).attribute == old(self).attribute
                &&& final(self).max_window == old(self).max_window
            },
            !moved ==> *final(self) == *old(self),
    {
        let count = row_count as i16;
        if self.window.top >= count {
            self.window.top = self.window.top - count;
            self.window.bottom = self.window.bottom - count;
            true
        } else {
            false
        }
    }

    /// Move the visible window down by `row_count` rows within the buffer,
    /// refusing (a no-op, not an error) to move past the buffer's bottom
    /// edge. Reports whether the window moved.
    pub fn scroll_down(&mut self, row_count: u16) -> (moved: bool)
        requires
            old(self).wf(),
            row_count <= i16::MAX as u16,
        ensures
            final(self).wf(),
            moved == ((old(self).window.bottom as int) < old(self).buffer.height as int
                - row_count as int),
            moved ==> {
                &&& final(self).window.top == old(self).window.top + row_count
                &&& final(self).window.bottom == old(self).window.bottom + row_count
                &&& final(self).window.left == old(self).window.left
                &&& final(self).window.right == old(self).window.right
                &&& final(self).buffer == old(self).buffer
                &&& final(self).cursor == old(self).cursor
                &&& final(self).attribute == old(self).attribute
                &&& final(self).max_window == old(self).max_window
            },
            !moved ==> *final(self) == *old(self),
    {
        let count = row_count as i16;
        if self.window.bottom < self.buffer.height - count {
            self.window.top = self.window.top + count;
            self.window.bottom = self.window.bottom + count;
            true
        } else {
            false
        }
    }
}

/// Law: a successful `set_size(width, height)` immediately followed by
/// `size()` reports exactly `(width, height)`. `post` is a state a
/// successful `set_size(width, height)` on `pre` leaves behind, per its
/// contract; the conclusion is the pair `size()` then reports, per its own.
pub proof fn lemma_set_size_size_round_trip(pre: Screen, post: Screen, width: u16, height: u16)
    requires
        pre.wf(),
        set_size_failure(pre, width, height) is None,
        post.window.left == pre.window.left,
        post.window.top == pre.window.top,
        post.window.right as int == pre.window.left as int + width as int - 1,
        post.window.bottom as int == pre.window.top as int + height as int - 1,
    ensures
        post.window.right as int - post.window.left as int + 1 == width as int,
        post.window.bottom as int - post.window.top as int + 1 == height as int,
{
}

/// The region `clear(All)` overwrites.
pub open spec fn clear_region_all(s: Screen) -> ClearRegion {
    ClearRegion {
        start: Coord { x: 0 as i16, y: 0 as i16 },
        cells: (s.buffer.width as int * s.buffer.height as int) as u32,
        attribute: s.attribute,
        cursor: Coord { x: 0 as i16, y: 0 as i16 },
    }
}

/// The region `clear(FromCursorDown)` overwrites.
pub open spec fn clear_region_after_cursor(s: Screen) -> ClearRegion {
    ClearRegion {
        start: if s.cursor.x > s.buffer.width {
            Coord { x: 0 as i16, y: (s.cursor.y + 1) as i16 }
        } else {
            s.cursor
        },
        cells: (s.buffer.width as int * s.buffer.height as int) as u32,
        attribute: s.attribute,
        cursor: s.cursor,
    }
}

/// The region `clear(FromCursorUp)` overwrites.
pub open spec fn clear_region_before_cursor(s: Screen) -> ClearRegion {
    ClearRegion {
        start: Coord { x: 0 as i16, y: 0 as i16 },
        cells: (s.buffer.width as int * s.cursor.y as int + s.cursor.x as int + 1) as u32,
        attribute: s.attribute,
        cursor: s.cursor,
    }
}

/// The region `clear(CurrentLine)` overwrites: the cursor's whole row, with
/// the cursor placed at that row's first column.
pub open spec fn clear_region_current_line(s: Screen) -> ClearRegion {
    ClearRegion {
        start: Coord { x: 0 as i16, y: s.cursor.y },
        cells: s.buffer.width as u32,
        attribute: s.attribute,
        cursor: Coord { x: 0 as i16, y: s.cursor.y },
    }
}

/// The region `clear(UntilNewLine)` overwrites.
pub open spec fn clear_region_until_line(s: Screen) -> ClearRegion {
    ClearRegion {
        start: s.cursor,
        cells: (s.buffer.width as int - s.cursor.x as int) as u32,
        attribute: s.attribute,
        cursor: s.cursor,
    }
}

} // verus!

