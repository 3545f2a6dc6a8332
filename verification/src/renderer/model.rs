//! The mathematical model of the screen: what a grid is, and what each of
//! its operations makes of it.

use crate::renderer::colors::TerminalColor;
use crate::renderer::grid::{Cell, CellAttributes, Region};
use vstd::prelude::*;

verus! {

/// The largest number of rows that the scrollback keeps.
pub const SCROLLBACK_LIMIT: usize = 10000;

/// A row of `cols` blank cells.
pub open spec fn blank_row(cols: int) -> Seq<Cell> {
    Seq::new(cols as nat, |c: int| Cell::blank())
}

/// `row` cut or padded with blank cells on the right to `cols` cells.
pub open spec fn fit_row(row: Seq<Cell>, cols: int) -> Seq<Cell> {
    Seq::new(
        cols as nat,
        |c: int|
            if c < row.len() {
                row[c]
            } else {
                Cell::blank()
            },
    )
}

/// The newest `SCROLLBACK_LIMIT` rows of `lines`: what the scrollback keeps
/// of them, the oldest leaving first.
pub open spec fn keep_newest(lines: Seq<Seq<Cell>>) -> Seq<Seq<Cell>> {
    if lines.len() <= SCROLLBACK_LIMIT {
        lines
    } else {
        lines.subrange(lines.len() - SCROLLBACK_LIMIT, lines.len() as int)
    }
}

/// Trimming after each row gives what trimming once at the end gives.
pub proof fn lemma_keep_newest_push(lines: Seq<Seq<Cell>>, line: Seq<Cell>)
    ensures
        keep_newest(keep_newest(lines).push(line)) == keep_newest(lines.push(line)),
{
    assert(keep_newest(keep_newest(lines).push(line)) =~= keep_newest(lines.push(line)));
}

/// The smaller of two integers.
pub open spec fn at_most(a: int, b: int) -> int {
    if a <= b {
        a
    } else {
        b
    }
}

/// The larger of two integers.
pub open spec fn at_least(a: int, b: int) -> int {
    if a >= b {
        a
    } else {
        b
    }
}

/// Whether `region` covers the cell `(row, col)`.
pub open spec fn covers(region: Region, row: int, col: int) -> bool {
    &&& region.row <= row < region.row + region.height
    &&& region.col <= col < region.col + region.width
}

/// The state of a grid as plain mathematical values.
pub struct GridState {
    /// Number of rows on screen.
    pub rows: int,
    /// Number of columns on screen.
    pub cols: int,
    /// The visible cells, row by row from the top.
    pub cells: Seq<Seq<Cell>>,
    /// The rows that left the screen, oldest first.
    pub scrollback: Seq<Seq<Cell>>,
    pub cursor_row: int,
    pub cursor_col: int,
    pub cursor_visible: bool,
    /// The regions marked dirty since they were last taken.
    pub dirty: Seq<Region>,
    /// The attributes and colors that the next written character gets.
    pub attrs: CellAttributes,
    pub fg: TerminalColor,
    pub bg: TerminalColor,
    /// First and last row of the scroll region, both inclusive.
    pub region_top: int,
    pub region_bottom: int,
}

impl GridState {
    /// The invariant of a grid: at least one row and column, a full matrix
    /// of cells, the cursor on screen, an ordered scroll region on screen,
    /// and a scrollback within its limit.
    pub open spec fn wf(self) -> bool {
        &&& 1 <= self.rows <= u16::MAX
        &&& 1 <= self.cols <= u16::MAX
        &&& self.cells.len() == self.rows
        &&& forall|r: int| 0 <= r < self.rows ==> (#[trigger] self.cells[r]).len() == self.cols
        &&& 0 <= self.cursor_row < self.rows
        &&& 0 <= self.cursor_col < self.cols
        &&& 0 <= self.region_top <= self.region_bottom < self.rows
        &&& self.scrollback.len() <= SCROLLBACK_LIMIT
    }

    /// Whether one of the dirty regions covers the cell `(row, col)`.
    pub open spec fn is_marked(self, row: int, col: int) -> bool {
        exists|i: int| 0 <= i < self.dirty.len() && covers(#[trigger] self.dirty[i], row, col)
    }

    /// Whether every cell that shows something else in `after` than in
    /// this grid is covered by a dirty region of `after`.
    pub open spec fn changes_marked_in(self, after: GridState) -> bool {
        forall|row: int, col: int|
            self.on_screen(row, col) && after.on_screen(row, col) && self.cells[row][col]
                != after.cells[row][col] ==> #[trigger] after.is_marked(row, col)
    }

    /// Whether `(row, col)` names a cell of the screen.
    pub open spec fn on_screen(self, row: int, col: int) -> bool {
        0 <= row < self.rows && 0 <= col < self.cols
    }

    /// Number of rows in the scroll region.
    pub open spec fn region_height(self) -> int {
        self.region_bottom - self.region_top + 1
    }

    /// The region that covers the whole screen.
    pub open spec fn whole_screen(self) -> Region {
        Region { row: 0, col: 0, width: self.cols as u16, height: self.rows as u16 }
    }

    /// The region that covers the scroll region.
    pub open spec fn scroll_area(self) -> Region {
        Region {
            row: self.region_top as u16,
            col: 0,
            width: self.cols as u16,
            height: self.region_height() as u16,
        }
    }

    /// A blank screen of `rows` by `cols` cells: cursor at the origin and
    /// visible, nothing dirty, white on black pending, the whole screen as
    /// scroll region, no scrollback.
    pub open spec fn fresh(rows: int, cols: int) -> GridState {
        GridState {
            rows,
            cols,
            cells: Seq::new(rows as nat, |r: int| blank_row(cols)),
            scrollback: Seq::empty(),
            cursor_row: 0,
            cursor_col: 0,
            cursor_visible: true,
            dirty: Seq::empty(),
            attrs: CellAttributes::plain(),
            fg: TerminalColor::White,
            bg: TerminalColor::Black,
            region_top: 0,
            region_bottom: rows - 1,
        }
    }

    /// The grid with `cell` at `(row, col)`, which must be on screen.
    pub open spec fn with_cell(self, row: int, col: int, cell: Cell) -> GridState {
        GridState { cells: self.cells.update(row, self.cells[row].update(col, cell)), ..self }
    }

    /// The grid with one more dirty region.
    pub open spec fn marked(self, region: Region) -> GridState {
        GridState { dirty: self.dirty.push(region), ..self }
    }

    /// The region of the single cell `(row, col)`.
    pub open spec fn cell_area(row: int, col: int) -> Region {
        Region { row: row as u16, col: col as u16, width: 1, height: 1 }
    }

    /// The rows that leave the bottom of the screen when it shrinks to
    /// `new_rows` rows, from the top one down, each fitted to `new_cols`.
    pub open spec fn evicted(self, new_rows: int, new_cols: int) -> Seq<Seq<Cell>> {
        Seq::new(
            if new_rows < self.rows {
                (self.rows - new_rows) as nat
            } else {
                0
            },
            |k: int| fit_row(self.cells[new_rows + k], new_cols),
        )
    }

    /// Resizing to `new_rows` by `new_cols`. Nothing changes when the size
    /// stays. Otherwise each row is fitted to the new width, new rows are
    /// blank, the rows below the new height go to the scrollback from the
    /// top one down, the cursor and the top of the scroll region are
    /// clamped, the scroll region ends at the last row, and the whole
    /// screen is the only dirty region.
    pub open spec fn resize(self, new_rows: int, new_cols: int) -> GridState {
        if new_rows == self.rows && new_cols == self.cols {
            self
        } else {
            GridState {
                rows: new_rows,
                cols: new_cols,
                cells: Seq::new(
                    new_rows as nat,
                    |r: int|
                        if r < self.rows {
                            fit_row(self.cells[r], new_cols)
                        } else {
                            blank_row(new_cols)
                        },
                ),
                scrollback: keep_newest(self.scrollback + self.evicted(new_rows, new_cols)),
                cursor_row: at_most(self.cursor_row, new_rows - 1),
                cursor_col: at_most(self.cursor_col, new_cols - 1),
                dirty: seq![
                    Region { row: 0, col: 0, width: new_cols as u16, height: new_rows as u16 },
                ],
                region_top: at_most(self.region_top, new_rows - 1),
                region_bottom: new_rows - 1,
                ..self
            }
        }
    }

    /// The cell that the pending attributes and colors give to `ch`.
    pub open spec fn styled(self, ch: char) -> Cell {
        Cell { ch, fg_color: self.fg, bg_color: self.bg, attrs: self.attrs }
    }

    /// Writing `ch` at the cursor: the cell gets the pending style, is
    /// marked dirty, and the cursor moves right unless it is on the last
    /// column, where it stays.
    pub open spec fn write_char(self, ch: char) -> GridState {
        GridState {
            cursor_col: at_most(self.cursor_col + 1, self.cols - 1),
            ..self.with_cell(self.cursor_row, self.cursor_col, self.styled(ch)).marked(
                Self::cell_area(self.cursor_row, self.cursor_col),
            )
        }
    }

    /// Putting `cell` at `(row, col)` and marking it dirty; nothing
    /// happens when the place is off screen.
    pub open spec fn set_cell(self, row: int, col: int, cell: Cell) -> GridState {
        if self.on_screen(row, col) {
            self.with_cell(row, col, cell).marked(Self::cell_area(row, col))
        } else {
            self
        }
    }

    /// Scrolling the scroll region up by `lines`, before the region is
    /// marked dirty: each row of the region takes the content of the row
    /// `lines` below it, or becomes blank when that row is outside the
    /// region. One row per line scrolled goes to the scrollback, the
    /// region's own rows first and blank rows after them.
    pub open spec fn scrolled_up(self, lines: int) -> GridState {
        GridState {
            cells: Seq::new(
                self.rows as nat,
                |r: int|
                    if self.region_top <= r <= self.region_bottom {
                        if r + lines <= self.region_bottom {
                            self.cells[r + lines]
                        } else {
                            blank_row(self.cols)
                        }
                    } else {
                        self.cells[r]
                    },
            ),
            scrollback: keep_newest(self.scrollback + self.scrolled_out(lines)),
            ..self
        }
    }

    /// The rows that scrolling up by `lines` hands to the scrollback.
    pub open spec fn scrolled_out(self, lines: int) -> Seq<Seq<Cell>> {
        Seq::new(
            lines as nat,
            |k: int|
                if k < self.region_height() {
                    self.cells[self.region_top + k]
                } else {
                    blank_row(self.cols)
                },
        )
    }

    /// Scrolling the scroll region up by `lines` and marking it dirty.
    pub open spec fn scroll_up(self, lines: int) -> GridState {
        self.scrolled_up(lines).marked(self.scroll_area())
    }

    /// Scrolling the scroll region down by `lines`, before the region is
    /// marked dirty: each row of the region takes the content of the row
    /// `lines` above it, or becomes blank when that row is outside the
    /// region. Nothing goes to the scrollback.
    pub open spec fn scrolled_down(self, lines: int) -> GridState {
        GridState {
            cells: Seq::new(
                self.rows as nat,
                |r: int|
                    if self.region_top <= r <= self.region_bottom {
                        if r - lines >= self.region_top {
                            self.cells[r - lines]
                        } else {
                            blank_row(self.cols)
                        }
                    } else {
                        self.cells[r]
                    },
            ),
            ..self
        }
    }

    /// Scrolling the scroll region down by `lines` and marking it dirty.
    pub open spec fn scroll_down(self, lines: int) -> GridState {
        self.scrolled_down(lines).marked(self.scroll_area())
    }

    /// A line feed with carriage return: the cursor goes to column 0 and
    /// one row down, or the region scrolls up by one when the cursor is on
    /// or below its last row.
    pub open spec fn newline(self) -> GridState {
        if self.cursor_row >= self.region_bottom {
            GridState { cursor_col: 0, ..self }.scroll_up(1)
        } else {
            GridState { cursor_col: 0, cursor_row: self.cursor_row + 1, ..self }
        }
    }

    /// The cursor at column 0.
    pub open spec fn carriage_return(self) -> GridState {
        GridState { cursor_col: 0, ..self }
    }

    /// The cursor at the next multiple of 8, or on the last column when
    /// that is past it.
    pub open spec fn tab(self) -> GridState {
        GridState {
            cursor_col: at_most((self.cursor_col / 8 + 1) * 8, self.cols - 1),
            ..self
        }
    }

    /// The cursor one column to the left, unless it is on column 0.
    pub open spec fn backspace(self) -> GridState {
        GridState { cursor_col: at_least(self.cursor_col - 1, 0), ..self }
    }

    /// The cursor `lines` rows up, but not above the scroll region.
    pub open spec fn cursor_up(self, lines: int) -> GridState {
        GridState { cursor_row: at_least(self.cursor_row - lines, self.region_top), ..self }
    }

    /// The cursor `lines` rows down, but not below the scroll region.
    pub open spec fn cursor_down(self, lines: int) -> GridState {
        GridState { cursor_row: at_most(self.cursor_row + lines, self.region_bottom), ..self }
    }

    /// The cursor `cols` columns to the left, but not past column 0.
    pub open spec fn cursor_left(self, cols: int) -> GridState {
        GridState { cursor_col: at_least(self.cursor_col - cols, 0), ..self }
    }

    /// The cursor `cols` columns to the right, but not past the last one.
    pub open spec fn cursor_right(self, cols: int) -> GridState {
        GridState { cursor_col: at_most(self.cursor_col + cols, self.cols - 1), ..self }
    }

    /// The cursor at `(row, col)`, each clamped to the screen.
    pub open spec fn set_cursor(self, row: int, col: int) -> GridState {
        GridState {
            cursor_row: at_most(row, self.rows - 1),
            cursor_col: at_most(col, self.cols - 1),
            ..self
        }
    }

    /// The grid with every cell that `gone` picks made blank.
    pub open spec fn erased(self, gone: spec_fn(int, int) -> bool) -> GridState {
        GridState {
            cells: Seq::new(
                self.rows as nat,
                |r: int|
                    Seq::new(
                        self.cols as nat,
                        |c: int|
                            if gone(r, c) {
                                Cell::blank()
                            } else {
                                self.cells[r][c]
                            },
                    ),
            ),
            ..self
        }
    }

    /// Every cell blank, and the whole screen the only dirty region.
    pub open spec fn clear_screen(self) -> GridState {
        GridState { dirty: seq![self.whole_screen()], ..self.erased(|r: int, c: int| true) }
    }

    /// Blank from the cursor to the end of the screen, the cursor's cell
    /// included; the rows from the cursor's down are marked dirty.
    pub open spec fn clear_screen_from_cursor(self) -> GridState {
        self.erased(
            |r: int, c: int|
                r > self.cursor_row || (r == self.cursor_row && c >= self.cursor_col),
        ).marked(
            Region {
                row: self.cursor_row as u16,
                col: 0,
                width: self.cols as u16,
                height: (self.rows - self.cursor_row) as u16,
            },
        )
    }

    /// Blank from the start of the screen to the cursor, the cursor's cell
    /// included; the rows down to the cursor's are marked dirty.
    pub open spec fn clear_screen_to_cursor(self) -> GridState {
        self.erased(
            |r: int, c: int|
                r < self.cursor_row || (r == self.cursor_row && c <= self.cursor_col),
        ).marked(
            Region {
                row: 0,
                col: 0,
                width: self.cols as u16,
                height: (self.cursor_row + 1) as u16,
            },
        )
    }

    /// The cursor's row blank and marked dirty.
    pub open spec fn clear_line(self) -> GridState {
        self.erased(|r: int, c: int| r == self.cursor_row).marked(
            Region { row: self.cursor_row as u16, col: 0, width: self.cols as u16, height: 1 },
        )
    }

    /// The cursor's row blank from the cursor to its end, and that part
    /// marked dirty.
    pub open spec fn clear_line_from_cursor(self) -> GridState {
        self.erased(|r: int, c: int| r == self.cursor_row && c >= self.cursor_col).marked(
            Region {
                row: self.cursor_row as u16,
                col: self.cursor_col as u16,
                width: (self.cols - self.cursor_col) as u16,
                height: 1,
            },
        )
    }

    /// The cursor's row blank from its start to the cursor, the cursor's
    /// cell included, and that part marked dirty.
    pub open spec fn clear_line_to_cursor(self) -> GridState {
        self.erased(|r: int, c: int| r == self.cursor_row && c <= self.cursor_col).marked(
            Region {
                row: self.cursor_row as u16,
                col: 0,
                width: (self.cursor_col + 1) as u16,
                height: 1,
            },
        )
    }

    /// The scroll region set to the rows between `top` and `bottom`, each
    /// clamped to the screen and the two put in order.
    pub open spec fn set_scroll_region(self, top: int, bottom: int) -> GridState {
        let t = at_most(top, self.rows - 1);
        let b = at_most(bottom, self.rows - 1);
        GridState { region_top: at_most(t, b), region_bottom: at_least(t, b), ..self }
    }

    /// White on black pending, with no attribute set.
    pub open spec fn reset_attrs(self) -> GridState {
        GridState {
            attrs: CellAttributes::plain(),
            fg: TerminalColor::White,
            bg: TerminalColor::Black,
            ..self
        }
    }
}

} // verus!
