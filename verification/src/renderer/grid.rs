//! The screen model: a matrix of cells with a cursor, a scroll region,
//! bounded scrollback and dirty-region tracking.

use crate::renderer::colors::TerminalColor;
use crate::renderer::model::{
    blank_row, fit_row, keep_newest, lemma_keep_newest_push, GridState, SCROLLBACK_LIMIT,
};
use std::collections::VecDeque;
use vstd::prelude::*;

verus! {

/// The boolean display attributes of a cell.
#[derive(Debug, Clone, Copy, PartialEq, Eq, Structural)]
pub struct CellAttributes {
    pub bold: bool,
    pub italic: bool,
    pub underline: bool,
    pub strikethrough: bool,
    pub blink: bool,
    pub reverse: bool,
}

impl CellAttributes {
    /// The attribute set with every attribute off.
    pub open spec fn plain() -> CellAttributes {
        CellAttributes {
            bold: false,
            italic: false,
            underline: false,
            strikethrough: false,
            blink: false,
            reverse: false,
        }
    }
}

impl Default for CellAttributes {
    fn default() -> (attrs: Self)
        ensures
            attrs == CellAttributes::plain(),
    {
        CellAttributes {
            bold: false,
            italic: false,
            underline: false,
            strikethrough: false,
            blink: false,
            reverse: false,
        }
    }
}

/// One character slot of the screen.
#[derive(Debug, Clone, Copy, PartialEq, Eq, Structural)]
pub struct Cell {
    pub ch: char,
    pub fg_color: TerminalColor,
    pub bg_color: TerminalColor,
    pub attrs: CellAttributes,
}

impl Cell {
    /// The cell that an erased or never written slot holds.
    pub open spec fn blank() -> Cell {
        Cell {
            ch: '\0',
            fg_color: TerminalColor::DefaultFg,
            bg_color: TerminalColor::DefaultFg,
            attrs: CellAttributes::plain(),
        }
    }

    /// The cell that shows `ch` in white on black with no attribute set.
    pub open spec fn plain(ch: char) -> Cell {
        Cell {
            ch,
            fg_color: TerminalColor::White,
            bg_color: TerminalColor::Black,
            attrs: CellAttributes::plain(),
        }
    }

    /// A cell showing `ch` in white on black.
    pub fn new(ch: char) -> (cell: Self)
        ensures
            cell == Cell::plain(ch),
    {
        Cell {
            ch,
            fg_color: TerminalColor::White,
            bg_color: TerminalColor::Black,
            attrs: CellAttributes::default(),
        }
    }

    /// The blank cell.
    pub fn empty() -> (cell: Self)
        ensures
            cell == Cell::blank(),
    {
        Cell::default()
    }

    /// Whether the cell shows nothing: its glyph is NUL or a space.
    pub fn is_empty(&self) -> (empty: bool)
        ensures
            empty == (self.ch == '\0' || self.ch == ' '),
    {
        self.ch == '\0' || self.ch == ' '
    }
}

impl Default for Cell {
    fn default() -> (cell: Self)
        ensures
            cell == Cell::blank(),
    {
        Cell {
            ch: '\0',
            fg_color: TerminalColor::default(),
            bg_color: TerminalColor::default(),
            attrs: CellAttributes::default(),
        }
    }
}

/// A rectangle of the grid that changed since the last redraw.
#[derive(Debug, Clone, Copy, PartialEq, Eq, Structural)]
pub struct Region {
    pub row: u16,
    pub col: u16,
    pub width: u16,
    pub height: u16,
}

/// The screen of a terminal.
pub struct TextGrid {
    pub rows: u16,
    pub cols: u16,
    cells: Vec<Vec<Cell>>,
    scrollback: VecDeque<Vec<Cell>>,
    cursor_row: u16,
    cursor_col: u16,
    cursor_visible: bool,
    dirty_regions: Vec<Region>,
    current_attrs: CellAttributes,
    current_fg: TerminalColor,
    current_bg: TerminalColor,
    scroll_region_top: u16,
    scroll_region_bottom: u16,
}

impl View for TextGrid {
    type V = GridState;

    closed spec fn view(&self) -> GridState {
        GridState {
            rows: self.rows as int,
            cols: self.cols as int,
            cells: Seq::new(self.cells@.len(), |r: int| self.cells@[r]@),
            scrollback: Seq::new(self.scrollback@.len(), |i: int| self.scrollback@[i]@),
            cursor_row: self.cursor_row as int,
            cursor_col: self.cursor_col as int,
            cursor_visible: self.cursor_visible,
            dirty: self.dirty_regions@,
            attrs: self.current_attrs,
            fg: self.current_fg,
            bg: self.current_bg,
            region_top: self.scroll_region_top as int,
            region_bottom: self.scroll_region_bottom as int,
        }
    }
}

/// A row of `cols` blank cells.
fn blank_line(cols: u16) -> (line: Vec<Cell>)
    ensures
        line@ == blank_row(cols as int),
{
    let line = vec![Cell::empty(); cols as usize];
    assert(line@ =~= blank_row(cols as int));
    line
}

/// Cuts `line` to `cols` cells, or pads it with blank cells to that width.
fn fit_line(line: &mut Vec<Cell>, cols: u16)
    ensures
        final(line)@ == fit_row(old(line)@, cols as int),
{
    let width: usize = cols as usize;
    if line.len() > width {
        line.truncate(width);
    }
    while line.len() < width
        invariant
            width == cols,
            line@.len() <= width,
            line@.len() < width ==> old(line)@.len() <= line@.len(),
            line@ =~= fit_row(old(line)@, line@.len() as int),
        decreases width - line@.len(),
    {
        line.push(Cell::empty());
    }
    assert(line@ =~= fit_row(old(line)@, cols as int));
}

impl TextGrid {
    /// The invariant of a grid: that of its state.
    pub open spec fn wf(&self) -> bool {
        self@.wf()
    }

    /// A blank grid of `rows` by `cols` cells.
    pub fn new(rows: u16, cols: u16) -> (grid: Self)
        requires
            rows >= 1,
            cols >= 1,
        ensures
            grid.wf(),
            grid@ == GridState::fresh(rows as int, cols as int),
    {
        let mut cells: Vec<Vec<Cell>> = Vec::with_capacity(rows as usize);
        let mut r: u16 = 0;
        while r < rows
            invariant
                r <= rows,
                cells@.len() == r,
                forall|i: int| 0 <= i < r ==> (#[trigger] cells@[i])@ == blank_row(cols as int),
            decreases rows - r,
        {
            cells.push(blank_line(cols));
            r += 1;
        }
        let grid = TextGrid {
            rows,
            cols,
            cells,
            scrollback: VecDeque::new(),
            cursor_row: 0,
            cursor_col: 0,
            cursor_visible: true,
            dirty_regions: Vec::new(),
            current_attrs: CellAttributes::default(),
            current_fg: TerminalColor::White,
            current_bg: TerminalColor::Black,
            scroll_region_top: 0,
            scroll_region_bottom: rows - 1,
        };
        assert(grid@.cells =~= GridState::fresh(rows as int, cols as int).cells);
        assert(grid@.scrollback =~= Seq::<Seq<Cell>>::empty());
        assert(grid@.dirty =~= Seq::<Region>::empty());
        grid
    }

    /// Number of rows on screen.
    pub fn rows(&self) -> (rows: u16)
        ensures
            rows == self@.rows,
    {
        self.rows
    }

    /// Number of columns on screen.
    pub fn cols(&self) -> (cols: u16)
        ensures
            cols == self@.cols,
    {
        self.cols
    }

    /// Puts `cell` at `(row, col)`, which must be on screen.
    fn put(&mut self, row: u16, col: u16, cell: Cell)
        requires
            old(self).wf(),
            old(self)@.on_screen(row as int, col as int),
        ensures
            final(self).wf(),
            final(self)@ == old(self)@.with_cell(row as int, col as int, cell),
    {
        assert(self@.cells[row as int] == self.cells@[row as int]@);
        self.cells[row as usize][col as usize] = cell;
        assert(self@.cells =~= old(self)@.with_cell(row as int, col as int, cell).cells);
        assert(self@.scrollback =~= old(self)@.scrollback);
    }

    /// Marks one more region dirty.
    fn mark_dirty(&mut self, region: Region)
        ensures
            final(self)@ == old(self)@.marked(region),
    {
        self.dirty_regions.push(region);
    }

    /// Makes the whole screen the only dirty region.
    fn mark_all_dirty(&mut self)
        ensures
            final(self)@ == (GridState { dirty: seq![old(self)@.whole_screen()], ..old(self)@ }),
    {
        self.dirty_regions.clear();
        self.dirty_regions.push(Region { row: 0, col: 0, width: self.cols, height: self.rows });
        assert(self.dirty_regions@ =~= seq![old(self)@.whole_screen()]);
    }

    /// Writes `ch` at the cursor in the pending style and moves the cursor
    /// one column to the right; on the last column the cursor stays, so
    /// that further characters overwrite that column.
    pub fn write_char(&mut self, ch: char)
        requires
            old(self).wf(),
        ensures
            final(self).wf(),
            final(self)@ == old(self)@.write_char(ch),
    {
        let cell = Cell {
            ch,
            fg_color: self.current_fg,
            bg_color: self.current_bg,
            attrs: self.current_attrs,
        };
        let row: u16 = self.cursor_row;
        let col: u16 = self.cursor_col;
        self.put(row, col, cell);
        self.mark_dirty(Region { row, col, width: 1, height: 1 });
        if col < self.cols - 1 {
            self.cursor_col = col + 1;
        }
    }

    /// Puts `ch` at `(row, col)` in white on black and marks the cell
    /// dirty; does nothing when the place is off screen.
    pub fn set_char(&mut self, row: u16, col: u16, ch: char)
        requires
            old(self).wf(),
        ensures
            final(self).wf(),
            final(self)@ == old(self)@.set_cell(row as int, col as int, Cell::plain(ch)),
    {
        if row < self.rows && col < self.cols {
            self.put(row, col, Cell::new(ch));
            self.mark_dirty(Region { row, col, width: 1, height: 1 });
        }
    }

    /// Puts a copy of `cell` at `(row, col)` and marks the cell dirty;
    /// does nothing when the place is off screen.
    pub fn set_cell(&mut self, row: u16, col: u16, cell: &Cell)
        requires
            old(self).wf(),
        ensures
            final(self).wf(),
            final(self)@ == old(self)@.set_cell(row as int, col as int, *cell),
    {
        if row < self.rows && col < self.cols {
            self.put(row, col, *cell);
            self.mark_dirty(Region { row, col, width: 1, height: 1 });
        }
    }

    /// Blanks the cells of `row` from column `from` up to, but not
    /// including, column `to`.
    fn erase_span(&mut self, row: u16, from: u16, to: u16)
        requires
            old(self).wf(),
            row < old(self)@.rows,
            from <= to <= old(self)@.cols,
        ensures
            final(self).wf(),
            final(self)@ == old(self)@.erased(|r: int, c: int| r == row && from <= c < to),
    {
        let mut col: u16 = from;
        assert(self@.cells =~~= old(self)@.erased(
            |r: int, c: int| r == row && from <= c < from,
        ).cells);
        while col < to
            invariant
                from <= col <= to,
                to <= self@.cols,
                row < self@.rows,
                self.wf(),
                self@ == old(self)@.erased(|r: int, c: int| r == row && from <= c < col),
            decreases to - col,
        {
            self.put(row, col, Cell::empty());
            col += 1;
            assert(self@.cells =~~= old(self)@.erased(
                |r: int, c: int| r == row && from <= c < col,
            ).cells);
        }
    }

    /// Blanks the rows from `from` up to, but not including, `to`.
    fn erase_rows(&mut self, from: u16, to: u16)
        requires
            old(self).wf(),
            from <= to <= old(self)@.rows,
        ensures
            final(self).wf(),
            final(self)@ == old(self)@.erased(|r: int, c: int| from <= r < to),
    {
        let mut row: u16 = from;
        assert(self@.cells =~~= old(self)@.erased(|r: int, c: int| from <= r < from).cells);
        while row < to
            invariant
                from <= row <= to,
                to <= self@.rows,
                self.wf(),
                self@ == old(self)@.erased(|r: int, c: int| from <= r < row),
            decreases to - row,
        {
            let cols: u16 = self.cols;
            self.erase_span(row, 0, cols);
            row += 1;
            assert(self@.cells =~~= old(self)@.erased(|r: int, c: int| from <= r < row).cells);
        }
    }

    /// Blanks the whole screen and makes it the only dirty region.
    pub fn clear_screen(&mut self)
        requires
            old(self).wf(),
        ensures
            final(self).wf(),
            final(self)@ == old(self)@.clear_screen(),
    {
        let rows: u16 = self.rows;
        self.erase_rows(0, rows);
        self.mark_all_dirty();
        assert(self@.cells =~~= old(self)@.clear_screen().cells);
    }

    /// Blanks the screen from the cursor to its end.
    pub fn clear_screen_from_cursor(&mut self)
        requires
            old(self).wf(),
        ensures
            final(self).wf(),
            final(self)@ == old(self)@.clear_screen_from_cursor(),
    {
        let rows: u16 = self.rows;
        let cols: u16 = self.cols;
        let row: u16 = self.cursor_row;
        let col: u16 = self.cursor_col;
        self.erase_span(row, col, cols);
        self.erase_rows(row + 1, rows);
        self.mark_dirty(Region { row, col: 0, width: cols, height: rows - row });
        assert(self@.cells =~~= old(self)@.clear_screen_from_cursor().cells);
    }

    /// Blanks the screen from its start to the cursor.
    pub fn clear_screen_to_cursor(&mut self)
        requires
            old(self).wf(),
        ensures
            final(self).wf(),
            final(self)@ == old(self)@.clear_screen_to_cursor(),
    {
        let cols: u16 = self.cols;
        let row: u16 = self.cursor_row;
        let col: u16 = self.cursor_col;
        self.erase_rows(0, row);
        self.erase_span(row, 0, col + 1);
        self.mark_dirty(Region { row: 0, col: 0, width: cols, height: row + 1 });
        assert(self@.cells =~~= old(self)@.clear_screen_to_cursor().cells);
    }

    /// Blanks the cursor's row.
    pub fn clear_line(&mut self)
        requires
            old(self).wf(),
        ensures
            final(self).wf(),
            final(self)@ == old(self)@.clear_line(),
    {
        let cols: u16 = self.cols;
        let row: u16 = self.cursor_row;
        self.erase_span(row, 0, cols);
        self.mark_dirty(Region { row, col: 0, width: cols, height: 1 });
        assert(self@.cells =~~= old(self)@.clear_line().cells);
    }

    /// Blanks the cursor's row from the cursor to its end.
    pub fn clear_line_from_cursor(&mut self)
        requires
            old(self).wf(),
        ensures
            final(self).wf(),
            final(self)@ == old(self)@.clear_line_from_cursor(),
    {
        let cols: u16 = self.cols;
        let row: u16 = self.cursor_row;
        let col: u16 = self.cursor_col;
        self.erase_span(row, col, cols);
        self.mark_dirty(Region { row, col, width: cols - col, height: 1 });
        assert(self@.cells =~~= old(self)@.clear_line_from_cursor().cells);
    }

    /// Blanks the cursor's row from its start to the cursor, the cursor's
    /// cell included.
    pub fn clear_line_to_cursor(&mut self)
        requires
            old(self).wf(),
        ensures
            final(self).wf(),
            final(self)@ == old(self)@.clear_line_to_cursor(),
    {
        let row: u16 = self.cursor_row;
        let col: u16 = self.cursor_col;
        self.erase_span(row, 0, col + 1);
        self.mark_dirty(Region { row, col: 0, width: col + 1, height: 1 });
        assert(self@.cells =~~= old(self)@.clear_line_to_cursor().cells);
    }

    /// Appends `line` to the scrollback and drops the oldest row when that
    /// takes it over its limit.
    fn retire(&mut self, line: Vec<Cell>)
        requires
            old(self)@.scrollback.len() <= SCROLLBACK_LIMIT,
        ensures
            final(self)@ == (GridState {
                scrollback: keep_newest(old(self)@.scrollback.push(line@)),
                ..old(self)@
            }),
    {
        self.scrollback.push_back(line);
        if self.scrollback.len() > SCROLLBACK_LIMIT {
            self.scrollback.pop_front();
        }
        assert(self@.scrollback =~~= keep_newest(old(self)@.scrollback.push(line@)));
        assert(self@.cells =~~= old(self)@.cells);
    }

    /// Scrolls the scroll region up by `lines`. The rows that leave its top
    /// go to the scrollback, blank rows enter at its bottom, and the
    /// region is marked dirty.
    pub fn scroll_up(&mut self, lines: u16)
        requires
            old(self).wf(),
        ensures
            final(self).wf(),
            final(self)@ == old(self)@.scroll_up(lines as int),
    {
        let top: usize = self.scroll_region_top as usize;
        let bottom: usize = self.scroll_region_bottom as usize;
        let cols: u16 = self.cols;
        let mut done: u16 = 0;
        assert(self@.cells =~~= old(self)@.scrolled_up(0).cells);
        assert(old(self)@.scrollback + old(self)@.scrolled_out(0) =~= old(self)@.scrollback);
        while done < lines
            invariant
                done <= lines,
                old(self).wf(),
                top == old(self)@.region_top,
                bottom == old(self)@.region_bottom,
                cols == old(self)@.cols,
                self.cells@.len() == old(self)@.rows,
                self@ == old(self)@.scrolled_up(done as int),
            decreases lines - done,
        {
            let ghost before = self@;
            let ghost lines_before = self.cells@;
            assert(before.cells[top as int] == self.cells@[top as int]@);
            let top_line = self.cells.remove(top);
            self.cells.insert(bottom, blank_line(cols));
            assert forall|r: int| 0 <= r < self@.rows implies #[trigger] self@.cells[r] == old(
                self,
            )@.scrolled_up(done + 1).cells[r] by {
                if top <= r < bottom {
                    assert(self.cells@[r] == lines_before[r + 1]);
                    assert(before.cells[r + 1] == lines_before[r + 1]@);
                } else if r != bottom {
                    assert(self.cells@[r] == lines_before[r]);
                    assert(before.cells[r] == lines_before[r]@);
                }
            }
            assert(self@.cells =~~= old(self)@.scrolled_up(done + 1).cells);
            assert(self@.scrollback =~~= before.scrollback);
            self.retire(top_line);
            proof {
                let kept = old(self)@.scrollback + old(self)@.scrolled_out(done as int);
                lemma_keep_newest_push(kept, top_line@);
                assert(kept.push(top_line@) =~= old(self)@.scrollback + old(self)@.scrolled_out(
                    done + 1,
                ));
            }
            done += 1;
        }
        self.mark_dirty(
            Region {
                row: self.scroll_region_top,
                col: 0,
                width: self.cols,
                height: self.scroll_region_bottom - self.scroll_region_top + 1,
            },
        );
    }

    /// Scrolls the scroll region down by `lines`. Blank rows enter at its
    /// top, the rows that leave its bottom are lost, and the region is
    /// marked dirty.
    pub fn scroll_down(&mut self, lines: u16)
        requires
            old(self).wf(),
        ensures
            final(self).wf(),
            final(self)@ == old(self)@.scroll_down(lines as int),
    {
        let top: usize = self.scroll_region_top as usize;
        let bottom: usize = self.scroll_region_bottom as usize;
        let cols: u16 = self.cols;
        let mut done: u16 = 0;
        assert(self@.cells =~~= old(self)@.scrolled_down(0).cells);
        while done < lines
            invariant
                done <= lines,
                old(self).wf(),
                top == old(self)@.region_top,
                bottom == old(self)@.region_bottom,
                cols == old(self)@.cols,
                self.cells@.len() == old(self)@.rows,
                self@ == old(self)@.scrolled_down(done as int),
            decreases lines - done,
        {
            let ghost before = self@;
            let ghost lines_before = self.cells@;
            self.cells.remove(bottom);
            self.cells.insert(top, blank_line(cols));
            assert forall|r: int| 0 <= r < self@.rows implies #[trigger] self@.cells[r] == old(
                self,
            )@.scrolled_down(done + 1).cells[r] by {
                if top < r <= bottom {
                    assert(self.cells@[r] == lines_before[r - 1]);
                    assert(before.cells[r - 1] == lines_before[r - 1]@);
                } else if r != top {
                    assert(self.cells@[r] == lines_before[r]);
                    assert(before.cells[r] == lines_before[r]@);
                }
            }
            assert(self@.cells =~~= old(self)@.scrolled_down(done + 1).cells);
            assert(self@.scrollback =~~= before.scrollback);
            done += 1;
        }
        self.mark_dirty(
            Region {
                row: self.scroll_region_top,
                col: 0,
                width: self.cols,
                height: self.scroll_region_bottom - self.scroll_region_top + 1,
            },
        );
    }

    /// Starts a new line: the cursor goes to column 0 and one row down, or
    /// the scroll region scrolls up by one when the cursor is on or below
    /// its last row.
    pub fn newline(&mut self)
        requires
            old(self).wf(),
        ensures
            final(self).wf(),
            final(self)@ == old(self)@.newline(),
    {
        self.cursor_col = 0;
        if self.cursor_row >= self.scroll_region_bottom {
            self.scroll_up(1);
        } else {
            self.cursor_row += 1;
        }
    }

    /// Fits every row to `new_cols` cells.
    fn fit_rows(&mut self, new_cols: u16)
        ensures
            final(self)@ == (GridState {
                cells: Seq::new(
                    old(self)@.cells.len(),
                    |r: int| fit_row(old(self)@.cells[r], new_cols as int),
                ),
                ..old(self)@
            }),
    {
        let count: usize = self.cells.len();
        let mut row: usize = 0;
        assert(self@.cells =~~= Seq::new(
            old(self)@.cells.len(),
            |r: int|
                if r < 0 {
                    fit_row(old(self)@.cells[r], new_cols as int)
                } else {
                    old(self)@.cells[r]
                },
        ));
        while row < count
            invariant
                row <= count,
                count == self.cells@.len(),
                count == old(self)@.cells.len(),
                self@ == (GridState {
                    cells: Seq::new(
                        old(self)@.cells.len(),
                        |r: int|
                            if r < row {
                                fit_row(old(self)@.cells[r], new_cols as int)
                            } else {
                                old(self)@.cells[r]
                            },
                    ),
                    ..old(self)@
                }),
            decreases count - row,
        {
            let ghost before = self@;
            let ghost lines_before = self.cells@;
            assert(before.cells[row as int] == lines_before[row as int]@);
            fit_line(&mut self.cells[row], new_cols);
            assert forall|r: int| 0 <= r < count implies #[trigger] self@.cells[r] == (if r < row
                + 1 {
                fit_row(old(self)@.cells[r], new_cols as int)
            } else {
                old(self)@.cells[r]
            }) by {
                if r != row {
                    assert(self.cells@[r] == lines_before[r]);
                    assert(before.cells[r] == lines_before[r]@);
                }
            }
            assert(self@.cells =~~= Seq::new(
                old(self)@.cells.len(),
                |r: int|
                    if r < row + 1 {
                        fit_row(old(self)@.cells[r], new_cols as int)
                    } else {
                        old(self)@.cells[r]
                    },
            ));
            assert(self@.scrollback =~~= before.scrollback);
            row += 1;
        }
        assert(self@.cells =~~= Seq::new(
            old(self)@.cells.len(),
            |r: int| fit_row(old(self)@.cells[r], new_cols as int),
        ));
    }

    /// Brings the number of rows to `new_rows`: blank rows of `new_cols`
    /// cells are added at the bottom, or the rows past the new height go
    /// to the scrollback, from the top one down.
    fn fit_height(&mut self, new_rows: u16, new_cols: u16)
        requires
            old(self)@.scrollback.len() <= SCROLLBACK_LIMIT,
        ensures
            final(self)@ == (GridState {
                cells: Seq::new(
                    new_rows as nat,
                    |r: int|
                        if r < old(self)@.cells.len() {
                            old(self)@.cells[r]
                        } else {
                            blank_row(new_cols as int)
                        },
                ),
                scrollback: keep_newest(
                    old(self)@.scrollback + (if new_rows < old(self)@.cells.len() {
                        old(self)@.cells.subrange(new_rows as int, old(self)@.cells.len() as int)
                    } else {
                        Seq::empty()
                    }),
                ),
                ..old(self)@
            }),
    {
        let height: usize = new_rows as usize;
        if self.cells.len() > height {
            let ghost lines_before = self.cells@;
            let ghost before = self@;
            let evicted = self.cells.split_off(height);
            let ghost gone = before.cells.subrange(new_rows as int, before.cells.len() as int);
            assert(self@.cells =~~= before.cells.subrange(0, new_rows as int));
            assert(self@.scrollback =~~= before.scrollback);
            assert(before.scrollback + gone.take(0) =~= before.scrollback);
            let ghost kept = self@;
            for line in it: evicted
                invariant
                    it.seq().len() == gone.len(),
                    forall|k: int| 0 <= k < gone.len() ==> (#[trigger] it.seq()[k])@ == gone[k],
                    before.scrollback.len() <= SCROLLBACK_LIMIT,
                    self@ == (GridState {
                        scrollback: keep_newest(before.scrollback + gone.take(it.index() as int)),
                        ..kept
                    }),
            {
                proof {
                    let moved = it.index() as int;
                    lemma_keep_newest_push(before.scrollback + gone.take(moved), gone[moved]);
                    assert((before.scrollback + gone.take(moved)).push(gone[moved])
                        =~= before.scrollback + gone.take(moved + 1));
                }
                self.retire(line);
            }
            assert(gone.take(gone.len() as int) =~= gone);
            assert(self@.cells =~~= Seq::new(
                new_rows as nat,
                |r: int|
                    if r < before.cells.len() {
                        before.cells[r]
                    } else {
                        blank_row(new_cols as int)
                    },
            ));
        } else {
            let ghost before = self@;
            assert(before.scrollback + Seq::<Seq<Cell>>::empty() =~= before.scrollback);
            assert(self@.cells =~~= Seq::new(
                self.cells@.len(),
                |r: int|
                    if r < before.cells.len() {
                        before.cells[r]
                    } else {
                        blank_row(new_cols as int)
                    },
            ));
            while self.cells.len() < height
                invariant
                    height == new_rows,
                    before.cells.len() <= self.cells@.len() <= height,
                    before.scrollback.len() <= SCROLLBACK_LIMIT,
                    self@ == (GridState {
                        cells: Seq::new(
                            self.cells@.len(),
                            |r: int|
                                if r < before.cells.len() {
                                    before.cells[r]
                                } else {
                                    blank_row(new_cols as int)
                                },
                        ),
                        ..before
                    }),
                decreases height - self.cells@.len(),
            {
                let ghost prev = self@;
                self.cells.push(blank_line(new_cols));
                assert(self@.cells =~~= prev.cells.push(blank_row(new_cols as int)));
                assert(self@.cells =~~= Seq::new(
                    self.cells@.len(),
                    |r: int|
                        if r < before.cells.len() {
                            before.cells[r]
                        } else {
                            blank_row(new_cols as int)
                        },
                ));
                assert(self@.scrollback =~~= prev.scrollback);
            }
        }
    }

    /// Resizes the screen to `new_rows` by `new_cols`, keeping the content
    /// of the top left corner. Rows that no longer fit go to the
    /// scrollback, from the top one down.
    pub fn resize(&mut self, new_rows: u16, new_cols: u16)
        requires
            old(self).wf(),
            new_rows >= 1,
            new_cols >= 1,
        ensures
            final(self).wf(),
            final(self)@ == old(self)@.resize(new_rows as int, new_cols as int),
    {
        if new_rows == self.rows && new_cols == self.cols {
            return ;
        }
        self.fit_rows(new_cols);
        self.fit_height(new_rows, new_cols);
        self.rows = new_rows;
        self.cols = new_cols;
        let last_row: u16 = new_rows - 1;
        let last_col: u16 = new_cols - 1;
        self.scroll_region_bottom = last_row;
        if self.scroll_region_top > last_row {
            self.scroll_region_top = last_row;
        }
        if self.cursor_row > last_row {
            self.cursor_row = last_row;
        }
        if self.cursor_col > last_col {
            self.cursor_col = last_col;
        }
        self.mark_all_dirty();
        proof {
            let target = old(self)@.resize(new_rows as int, new_cols as int);
            assert(self@.cells =~~= target.cells);
            assert(old(self)@.evicted(new_rows as int, new_cols as int) =~~= (if new_rows < old(
                self,
            )@.rows {
                Seq::new(
                    old(self)@.cells.len(),
                    |r: int| fit_row(old(self)@.cells[r], new_cols as int),
                ).subrange(new_rows as int, old(self)@.rows)
            } else {
                Seq::empty()
            }));
            assert(self@.scrollback == target.scrollback);
            assert(self@.dirty =~= target.dirty);
        }
    }

    /// Moves the cursor to column 0.
    pub fn carriage_return(&mut self)
        requires
            old(self).wf(),
        ensures
            final(self).wf(),
            final(self)@ == old(self)@.carriage_return(),
    {
        self.cursor_col = 0;
    }

    /// Moves the cursor to the next tab stop, a multiple of 8, or to the
    /// last column when the stop is past it.
    pub fn tab(&mut self)
        requires
            old(self).wf(),
        ensures
            final(self).wf(),
            final(self)@ == old(self)@.tab(),
    {
        let next_tab: u32 = (self.cursor_col as u32 / 8 + 1) * 8;
        let last: u32 = (self.cols - 1) as u32;
        self.cursor_col = if next_tab <= last {
            next_tab as u16
        } else {
            self.cols - 1
        };
    }

    /// Moves the cursor one column to the left; erases nothing.
    pub fn backspace(&mut self)
        requires
            old(self).wf(),
        ensures
            final(self).wf(),
            final(self)@ == old(self)@.backspace(),
    {
        if self.cursor_col > 0 {
            self.cursor_col -= 1;
        }
    }

    /// Moves the cursor up by `lines`, stopping at the top of the scroll
    /// region.
    pub fn cursor_up(&mut self, lines: u16)
        requires
            old(self).wf(),
        ensures
            final(self).wf(),
            final(self)@ == old(self)@.cursor_up(lines as int),
    {
        let target: u16 = if lines <= self.cursor_row {
            self.cursor_row - lines
        } else {
            0
        };
        self.cursor_row = if target >= self.scroll_region_top {
            target
        } else {
            self.scroll_region_top
        };
    }

    /// Moves the cursor down by `lines`, stopping at the bottom of the
    /// scroll region.
    pub fn cursor_down(&mut self, lines: u16)
        requires
            old(self).wf(),
        ensures
            final(self).wf(),
            final(self)@ == old(self)@.cursor_down(lines as int),
    {
        let target: u32 = self.cursor_row as u32 + lines as u32;
        self.cursor_row = if target <= self.scroll_region_bottom as u32 {
            target as u16
        } else {
            self.scroll_region_bottom
        };
    }

    /// Moves the cursor left by `cols`, stopping at column 0.
    pub fn cursor_left(&mut self, cols: u16)
        requires
            old(self).wf(),
        ensures
            final(self).wf(),
            final(self)@ == old(self)@.cursor_left(cols as int),
    {
        self.cursor_col = if cols <= self.cursor_col {
            self.cursor_col - cols
        } else {
            0
        };
    }

    /// Moves the cursor right by `cols`, stopping at the last column.
    pub fn cursor_right(&mut self, cols: u16)
        requires
            old(self).wf(),
        ensures
            final(self).wf(),
            final(self)@ == old(self)@.cursor_right(cols as int),
    {
        let target: u32 = self.cursor_col as u32 + cols as u32;
        self.cursor_col = if target <= (self.cols - 1) as u32 {
            target as u16
        } else {
            self.cols - 1
        };
    }

    /// Puts the cursor at `(row, col)`, each clamped to the screen.
    pub fn set_cursor(&mut self, row: u16, col: u16)
        requires
            old(self).wf(),
        ensures
            final(self).wf(),
            final(self)@ == old(self)@.set_cursor(row as int, col as int),
    {
        self.cursor_row = if row <= self.rows - 1 {
            row
        } else {
            self.rows - 1
        };
        self.cursor_col = if col <= self.cols - 1 {
            col
        } else {
            self.cols - 1
        };
    }

    /// The cursor's row and column.
    pub fn cursor_position(&self) -> (position: (u16, u16))
        ensures
            position.0 == self@.cursor_row,
            position.1 == self@.cursor_col,
    {
        (self.cursor_row, self.cursor_col)
    }

    /// Shows or hides the cursor.
    pub fn set_cursor_visible(&mut self, visible: bool)
        ensures
            final(self)@ == (GridState { cursor_visible: visible, ..old(self)@ }),
    {
        self.cursor_visible = visible;
    }

    /// Whether the cursor is shown.
    pub fn cursor_visible(&self) -> (visible: bool)
        ensures
            visible == self@.cursor_visible,
    {
        self.cursor_visible
    }

    /// Sets the attributes of the characters written from now on.
    pub fn set_attrs(&mut self, attrs: CellAttributes)
        ensures
            final(self)@ == (GridState { attrs, ..old(self)@ }),
    {
        self.current_attrs = attrs;
    }

    /// Sets the foreground of the characters written from now on.
    pub fn set_fg_color(&mut self, color: TerminalColor)
        ensures
            final(self)@ == (GridState { fg: color, ..old(self)@ }),
    {
        self.current_fg = color;
    }

    /// Sets the background of the characters written from now on.
    pub fn set_bg_color(&mut self, color: TerminalColor)
        ensures
            final(self)@ == (GridState { bg: color, ..old(self)@ }),
    {
        self.current_bg = color;
    }

    /// Makes white on black with no attribute the pending style.
    pub fn reset_attrs(&mut self)
        ensures
            final(self)@ == old(self)@.reset_attrs(),
    {
        self.current_attrs = CellAttributes::default();
        self.current_fg = TerminalColor::White;
        self.current_bg = TerminalColor::Black;
    }

    /// Sets the scroll region to the rows between `top` and `bottom`, each
    /// clamped to the screen and the two put in order.
    pub fn set_scroll_region(&mut self, top: u16, bottom: u16)
        requires
            old(self).wf(),
        ensures
            final(self).wf(),
            final(self)@ == old(self)@.set_scroll_region(top as int, bottom as int),
    {
        let last: u16 = self.rows - 1;
        let t: u16 = if top <= last {
            top
        } else {
            last
        };
        let b: u16 = if bottom <= last {
            bottom
        } else {
            last
        };
        if t <= b {
            self.scroll_region_top = t;
            self.scroll_region_bottom = b;
        } else {
            self.scroll_region_top = b;
            self.scroll_region_bottom = t;
        }
    }

    /// Hands out the regions marked dirty so far and starts afresh.
    pub fn take_dirty_regions(&mut self) -> (regions: Vec<Region>)
        ensures
            regions@ == old(self)@.dirty,
            final(self)@ == (GridState { dirty: Seq::empty(), ..old(self)@ }),
    {
        let mut regions: Vec<Region> = Vec::new();
        std::mem::swap(&mut self.dirty_regions, &mut regions);
        regions
    }

    /// Whether any region is marked dirty.
    pub fn is_dirty(&self) -> (dirty: bool)
        ensures
            dirty == (self@.dirty.len() > 0),
    {
        !self.dirty_regions.is_empty()
    }

    /// The cell at `(row, col)`, if there is one.
    pub fn cell_at(&self, row: u16, col: u16) -> (cell: Option<&Cell>)
        ensures
            cell == (if row < self@.cells.len() && col < self@.cells[row as int].len() {
                Some(&self@.cells[row as int][col as int])
            } else {
                None
            }),
            self.wf() ==> (cell.is_some() <==> self@.on_screen(row as int, col as int)),
    {
        if (row as usize) < self.cells.len() {
            assert(self@.cells[row as int] == self.cells@[row as int]@);
            let line = &self.cells[row as usize];
            if (col as usize) < line.len() {
                return Some(&line[col as usize]);
            }
        }
        None
    }

    /// The row at `index`, if there is one.
    pub fn row(&self, index: u16) -> (row: Option<&Vec<Cell>>)
        ensures
            index < self@.cells.len() ==> row.is_some() && row.unwrap()@ == self@.cells[index as int],
            index >= self@.cells.len() ==> row.is_none(),
    {
        if (index as usize) < self.cells.len() {
            Some(&self.cells[index as usize])
        } else {
            None
        }
    }

    /// Number of rows in the scrollback.
    pub fn scrollback_len(&self) -> (len: usize)
        ensures
            len == self@.scrollback.len(),
    {
        self.scrollback.len()
    }

    /// The scrollback row at `index`, 0 being the oldest, if there is one.
    pub fn scrollback_line(&self, index: usize) -> (line: Option<&Vec<Cell>>)
        ensures
            index < self@.scrollback.len() ==> line.is_some() && line.unwrap()@
                == self@.scrollback[index as int],
            index >= self@.scrollback.len() ==> line.is_none(),
    {
        if index < self.scrollback.len() {
            Some(&self.scrollback[index])
        } else {
            None
        }
    }

    /// The scrollback rows, oldest first.
    pub fn scrollback(&self) -> (lines: &VecDeque<Vec<Cell>>)
        ensures
            lines@.len() == self@.scrollback.len(),
            forall|i: int| 0 <= i < lines@.len() ==> (#[trigger] lines@[i])@ == self@.scrollback[i],
    {
        &self.scrollback
    }
}

} // verus!
