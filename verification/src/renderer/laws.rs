//! Laws of the screen model and of the protocol's effect on it.

use crate::renderer::grid::Cell;
use crate::renderer::machine::ActionView;
use crate::renderer::model::{
    at_least, at_most, blank_row, covers, fit_row, keep_newest, GridState, SCROLLBACK_LIMIT,
};
use crate::renderer::screen::{count_of, param_or, Pen, Screen};
use vstd::prelude::*;

verus! {

/// Resizing keeps the invariant of the grid; in particular the scrollback
/// stays within its limit.
pub proof fn lemma_resize_keeps_invariant(grid: GridState, new_rows: int, new_cols: int)
    requires
        grid.wf(),
        1 <= new_rows <= u16::MAX,
        1 <= new_cols <= u16::MAX,
    ensures
        grid.resize(new_rows, new_cols).wf(),
{
}

/// Scrolling keeps the invariant of the grid and its size; in particular
/// the scrollback stays within its limit.
pub proof fn lemma_scrolling_keeps_invariant(grid: GridState, lines: int)
    requires
        grid.wf(),
        0 <= lines,
    ensures
        grid.scroll_up(lines).wf(),
        grid.scroll_down(lines).wf(),
        grid.newline().wf(),
        grid.scroll_up(lines).rows == grid.rows && grid.scroll_up(lines).cols == grid.cols,
        grid.scroll_down(lines).rows == grid.rows && grid.scroll_down(lines).cols == grid.cols,
        grid.newline().rows == grid.rows && grid.newline().cols == grid.cols,
{
}

/// Moving the cursor keeps the invariant of the grid and its size.
pub proof fn lemma_cursor_moves_keep_invariant(grid: GridState, count: int, row: int, col: int)
    requires
        grid.wf(),
        0 <= count,
        0 <= row,
        0 <= col,
    ensures
        grid.cursor_up(count).wf() && grid.cursor_up(count).rows == grid.rows && grid.cursor_up(
            count,
        ).cols == grid.cols,
        grid.cursor_down(count).wf() && grid.cursor_down(count).rows == grid.rows
            && grid.cursor_down(count).cols == grid.cols,
        grid.cursor_left(count).wf() && grid.cursor_left(count).rows == grid.rows
            && grid.cursor_left(count).cols == grid.cols,
        grid.cursor_right(count).wf() && grid.cursor_right(count).rows == grid.rows
            && grid.cursor_right(count).cols == grid.cols,
        grid.set_cursor(row, col).wf() && grid.set_cursor(row, col).rows == grid.rows
            && grid.set_cursor(row, col).cols == grid.cols,
        grid.carriage_return().wf() && grid.carriage_return().rows == grid.rows
            && grid.carriage_return().cols == grid.cols,
        grid.tab().wf() && grid.tab().rows == grid.rows && grid.tab().cols == grid.cols,
        grid.backspace().wf() && grid.backspace().rows == grid.rows && grid.backspace().cols
            == grid.cols,
{
}

/// Erasing keeps the invariant of the grid and its size.
pub proof fn lemma_erasing_keeps_invariant(grid: GridState)
    requires
        grid.wf(),
    ensures
        grid.clear_screen().wf() && grid.clear_screen().rows == grid.rows && grid.clear_screen().cols
            == grid.cols,
        grid.clear_screen_from_cursor().wf() && grid.clear_screen_from_cursor().rows == grid.rows
            && grid.clear_screen_from_cursor().cols == grid.cols,
        grid.clear_screen_to_cursor().wf() && grid.clear_screen_to_cursor().rows == grid.rows
            && grid.clear_screen_to_cursor().cols == grid.cols,
        grid.clear_line().wf() && grid.clear_line().rows == grid.rows && grid.clear_line().cols
            == grid.cols,
        grid.clear_line_from_cursor().wf() && grid.clear_line_from_cursor().rows == grid.rows
            && grid.clear_line_from_cursor().cols == grid.cols,
        grid.clear_line_to_cursor().wf() && grid.clear_line_to_cursor().rows == grid.rows
            && grid.clear_line_to_cursor().cols == grid.cols,
{
}

/// Writing a cell keeps the invariant of the grid and its size.
pub proof fn lemma_writing_keeps_invariant(grid: GridState, ch: char, row: int, col: int, cell: Cell)
    requires
        grid.wf(),
    ensures
        grid.write_char(ch).wf() && grid.write_char(ch).rows == grid.rows && grid.write_char(
            ch,
        ).cols == grid.cols,
        grid.set_cell(row, col, cell).wf() && grid.set_cell(row, col, cell).rows == grid.rows
            && grid.set_cell(row, col, cell).cols == grid.cols,
{
}

/// A grid that is resized to at least as many rows and at least as many
/// columns as it has keeps every cell, unchanged, at its coordinates.
pub proof fn lemma_growing_keeps_cells(grid: GridState, new_rows: int, new_cols: int)
    requires
        grid.wf(),
        grid.rows <= new_rows,
        grid.cols <= new_cols,
    ensures
        forall|r: int, c: int|
            grid.on_screen(r, c) ==> #[trigger] grid.resize(new_rows, new_cols).cells[r][c]
                == grid.cells[r][c],
{
}

/// A grid that is resized to fewer rows hands exactly the rows that no
/// longer fit to the scrollback: they follow what the scrollback held, the
/// topmost of them first, each fitted to the new width, and of the whole
/// the newest `SCROLLBACK_LIMIT` rows are kept.
pub proof fn lemma_shrinking_retires_rows(grid: GridState, new_rows: int, new_cols: int)
    requires
        grid.wf(),
        1 <= new_rows < grid.rows,
        1 <= new_cols,
    ensures
        ({
            let after = grid.resize(new_rows, new_cols);
            let gone = grid.evicted(new_rows, new_cols);
            let all = grid.scrollback + gone;
            &&& gone.len() == grid.rows - new_rows
            &&& forall|k: int|
                0 <= k < gone.len() ==> #[trigger] gone[k] == fit_row(
                    grid.cells[new_rows + k],
                    new_cols,
                )
            &&& after.scrollback == keep_newest(all)
            &&& after.scrollback.len() == at_most(all.len() as int, SCROLLBACK_LIMIT as int)
            &&& after.scrollback.len() <= SCROLLBACK_LIMIT
            &&& forall|i: int|
                0 <= i < after.scrollback.len() ==> #[trigger] after.scrollback[i] == all[all.len()
                    - after.scrollback.len() + i]
        }),
{
}

/// Every operation that changes what the screen shows marks the cells
/// it changed: a cell that differs after the operation is covered by one
/// of the dirty regions.
pub proof fn lemma_changes_are_marked(
    grid: GridState,
    ch: char,
    row: int,
    col: int,
    cell: Cell,
    lines: int,
    new_rows: int,
    new_cols: int,
)
    requires
        grid.wf(),
        0 <= lines,
        1 <= new_rows <= u16::MAX,
        1 <= new_cols <= u16::MAX,
    ensures
        grid.changes_marked_in(grid.write_char(ch)),
        grid.changes_marked_in(grid.set_cell(row, col, cell)),
        grid.changes_marked_in(grid.newline()),
        grid.changes_marked_in(grid.scroll_up(lines)),
        grid.changes_marked_in(grid.scroll_down(lines)),
        grid.changes_marked_in(grid.clear_screen()),
        grid.changes_marked_in(grid.clear_screen_from_cursor()),
        grid.changes_marked_in(grid.clear_screen_to_cursor()),
        grid.changes_marked_in(grid.clear_line()),
        grid.changes_marked_in(grid.clear_line_from_cursor()),
        grid.changes_marked_in(grid.clear_line_to_cursor()),
        grid.changes_marked_in(grid.resize(new_rows, new_cols)),
{
    lemma_last_mark_covers_changes(grid, grid.write_char(ch));
    lemma_last_mark_covers_changes(grid, grid.set_cell(row, col, cell));
    lemma_last_mark_covers_changes(grid, grid.newline());
    lemma_last_mark_covers_changes(grid, grid.scroll_up(lines));
    lemma_last_mark_covers_changes(grid, grid.scroll_down(lines));
    lemma_last_mark_covers_changes(grid, grid.clear_screen());
    lemma_last_mark_covers_changes(grid, grid.clear_screen_from_cursor());
    lemma_last_mark_covers_changes(grid, grid.clear_screen_to_cursor());
    lemma_last_mark_covers_changes(grid, grid.clear_line());
    lemma_last_mark_covers_changes(grid, grid.clear_line_from_cursor());
    lemma_last_mark_covers_changes(grid, grid.clear_line_to_cursor());
    lemma_last_mark_covers_changes(grid, grid.resize(new_rows, new_cols));
}

/// When the newest dirty region of `after` covers every cell that differs
/// from `before`, the changes are marked.
proof fn lemma_last_mark_covers_changes(before: GridState, after: GridState)
    requires
        forall|row: int, col: int|
            before.on_screen(row, col) && after.on_screen(row, col) && #[trigger] before.cells[row][col]
                != after.cells[row][col] ==> after.dirty.len() > 0 && covers(
                after.dirty[after.dirty.len() - 1],
                row,
                col,
            ),
    ensures
        before.changes_marked_in(after),
{
    assert forall|row: int, col: int|
        before.on_screen(row, col) && after.on_screen(row, col) && before.cells[row][col]
            != after.cells[row][col] implies #[trigger] after.is_marked(row, col) by {
        assert(covers(after.dirty[after.dirty.len() - 1], row, col));
    }
}

/// Every action keeps the invariant of the screen and its size: the
/// cursor stays on screen, the scroll region stays ordered and on screen,
/// the matrix stays full and the scrollback within its limit.
pub proof fn lemma_perform_keeps_invariant(screen: Screen, action: ActionView)
    requires
        screen.wf(),
    ensures
        screen.perform(action).wf(),
        screen.perform(action).grid.rows == screen.grid.rows,
        screen.perform(action).grid.cols == screen.grid.cols,
{
    let grid = screen.grid;
    match action {
        ActionView::Print(c) => {
            let styled = GridState {
                attrs: screen.pen.attrs,
                fg: screen.pen.fg,
                bg: screen.pen.bg,
                ..grid
            };
            lemma_writing_keeps_invariant(styled, c, 0, 0, Cell::blank());
        },
        ActionView::Execute(byte) => {
            lemma_scrolling_keeps_invariant(grid, 1);
            lemma_cursor_moves_keep_invariant(grid, 1, 0, 0);
        },
        ActionView::CsiDispatch { params, action } => {
            lemma_scrolling_keeps_invariant(grid, count_of(params));
            lemma_cursor_moves_keep_invariant(
                grid,
                count_of(params),
                at_least(param_or(params, 0, 1) - 1, 0),
                at_least(param_or(params, 1, 1) - 1, 0),
            );
            lemma_erasing_keeps_invariant(grid);
        },
        _ => {},
    }
}

/// A list of actions keeps the invariant of the screen and its size.
pub proof fn lemma_perform_all_keeps_invariant(screen: Screen, actions: Seq<ActionView>)
    requires
        screen.wf(),
    ensures
        screen.perform_all(actions).wf(),
        screen.perform_all(actions).grid.rows == screen.grid.rows,
        screen.perform_all(actions).grid.cols == screen.grid.cols,
    decreases actions.len(),
{
    if actions.len() > 0 {
        lemma_perform_all_keeps_invariant(screen, actions.drop_last());
        lemma_perform_keeps_invariant(screen.perform_all(actions.drop_last()), actions.last());
    }
}

/// Text printed on a fresh screen fills the first row from the left and
/// does not wrap: column `j` shows the `j`-th byte as long as `j` is before
/// the last column, the last column shows the last byte once the text is
/// as long as the row, the rest of the row and every other row stay blank,
/// and the cursor stays in the first row.
pub proof fn lemma_printed_text_fills_first_row(rows: int, cols: int, text: Seq<u8>)
    requires
        1 <= rows <= u16::MAX,
        1 <= cols <= u16::MAX,
    ensures
        ({
            let shown = Screen::fresh(rows, cols).print_all(text);
            let first = shown.grid.cells[0];
            &&& shown.wf()
            &&& shown.grid.rows == rows
            &&& shown.grid.cols == cols
            &&& shown.pen == Pen::initial()
            &&& first.len() == cols
            &&& forall|j: int|
                0 <= j < cols - 1 && j < text.len() ==> #[trigger] first[j] == Cell::plain(
                    text[j] as char,
                )
            &&& text.len() >= cols ==> first[cols - 1] == Cell::plain(text.last() as char)
            &&& forall|j: int| text.len() <= j < cols ==> #[trigger] first[j] == Cell::blank()
            &&& forall|r: int| 1 <= r < rows ==> #[trigger] shown.grid.cells[r] == blank_row(cols)
            &&& shown.grid.cursor_row == 0
            &&& shown.grid.cursor_col == at_most(text.len() as int, cols - 1)
        }),
    decreases text.len(),
{
    if text.len() > 0 {
        lemma_printed_text_fills_first_row(rows, cols, text.drop_last());
        let before = Screen::fresh(rows, cols).print_all(text.drop_last());
        let shown = before.print(text.last() as char);
        assert(shown == Screen::fresh(rows, cols).print_all(text));
        assert forall|j: int| 0 <= j < cols - 1 && j < text.len() implies #[trigger] shown.grid.cells[0][j]
            == Cell::plain(text[j] as char) by {
            if j < text.len() - 1 {
                assert(text.drop_last()[j] == text[j]);
            }
        }
    }
}

/// The graphic-rendition code 0, and a graphic-rendition sequence without
/// parameters, reset the pen whatever it was: default foreground, default
/// background, every attribute off. The grid is not touched.
pub proof fn lemma_sgr_zero_resets(screen: Screen)
    ensures
        screen.pen.with_code(0) == Pen::cleared(),
        screen.csi(seq![0u16], 'm') == (Screen { pen: Pen::cleared(), ..screen }),
        screen.csi(Seq::empty(), 'm') == (Screen { pen: Pen::cleared(), ..screen }),
        !Pen::cleared().attrs.bold && !Pen::cleared().attrs.italic && !Pen::cleared().attrs.underline
            && !Pen::cleared().attrs.strikethrough && !Pen::cleared().attrs.blink
            && !Pen::cleared().attrs.reverse,
{
    let params = seq![0u16];
    assert(screen.pen.sgr_from(params, 0) == screen.pen.with_code(0).sgr_from(params, 1));
}

} // verus!
