use termind::renderer::grid::TextGrid;

#[test]
fn test_grid_creation() {
    let grid = TextGrid::new(24, 80);
    assert_eq!(grid.rows, 24);
    assert_eq!(grid.cols, 80);
    assert_eq!(grid.cursor_position(), (0, 0));
}

#[test]
fn test_write_char() {
    let mut grid = TextGrid::new(24, 80);
    grid.write_char('H');
    grid.write_char('i');

    assert_eq!(grid.cell_at(0, 0).unwrap().ch, 'H');
    assert_eq!(grid.cell_at(0, 1).unwrap().ch, 'i');
    assert_eq!(grid.cursor_position(), (0, 2));
}

#[test]
fn grid_test_newline() {
    let mut grid = TextGrid::new(24, 80);
    grid.write_char('A');
    grid.newline();
    grid.write_char('B');

    assert_eq!(grid.cell_at(0, 0).unwrap().ch, 'A');
    assert_eq!(grid.cell_at(1, 0).unwrap().ch, 'B');
}

#[test]
fn test_resize() {
    let mut grid = TextGrid::new(24, 80);
    grid.write_char('X');
    grid.resize(30, 100);

    assert_eq!(grid.rows, 30);
    assert_eq!(grid.cols, 100);
    assert_eq!(grid.cell_at(0, 0).unwrap().ch, 'X');
}

fn row_text(grid: &TextGrid, row: u16) -> String {
    grid.row(row).unwrap().iter().map(|cell| cell.ch).collect()
}

fn fill_rows(grid: &mut TextGrid, marks: &[char]) {
    for (row, mark) in marks.iter().enumerate() {
        grid.set_char(row as u16, 0, *mark);
    }
}

#[test]
fn new_grid_is_blank() {
    let grid = TextGrid::new(3, 4);
    for row in 0..3 {
        for col in 0..4 {
            let cell = grid.cell_at(row, col).unwrap();
            assert_eq!(cell.ch, '\0');
            assert!(cell.is_empty());
            assert_eq!(cell.fg_color, termind::renderer::TerminalColor::DefaultFg);
            assert_eq!(cell.bg_color, termind::renderer::TerminalColor::DefaultFg);
        }
    }
    assert!(grid.cell_at(3, 0).is_none());
    assert!(grid.cell_at(0, 4).is_none());
    assert!(grid.row(3).is_none());
    assert!(grid.cursor_visible());
    assert!(!grid.is_dirty());
    assert_eq!(grid.scrollback_len(), 0);
}

#[test]
fn cell_constructors() {
    let cell = termind::renderer::Cell::new('q');
    assert_eq!(cell.ch, 'q');
    assert_eq!(cell.fg_color, termind::renderer::TerminalColor::White);
    assert_eq!(cell.bg_color, termind::renderer::TerminalColor::Black);
    assert!(!cell.is_empty());
    assert!(termind::renderer::Cell::empty().is_empty());
    assert!(termind::renderer::Cell::new(' ').is_empty());
}

#[test]
fn write_char_clamps_at_last_column() {
    let mut grid = TextGrid::new(2, 3);
    for ch in ['a', 'b', 'c', 'd', 'e'] {
        grid.write_char(ch);
    }
    assert_eq!(row_text(&grid, 0), "abe");
    assert_eq!(row_text(&grid, 1), "\0\0\0");
    assert_eq!(grid.cursor_position(), (0, 2));
}

#[test]
fn write_char_uses_pending_style() {
    let mut grid = TextGrid::new(2, 3);
    let attrs = termind::renderer::CellAttributes {
        bold: true,
        italic: false,
        underline: true,
        strikethrough: false,
        blink: false,
        reverse: false,
    };
    grid.set_attrs(attrs);
    grid.set_fg_color(termind::renderer::TerminalColor::Green);
    grid.set_bg_color(termind::renderer::TerminalColor::Indexed(7));
    grid.write_char('z');
    let cell = grid.cell_at(0, 0).unwrap();
    assert_eq!(cell.fg_color, termind::renderer::TerminalColor::Green);
    assert_eq!(cell.bg_color, termind::renderer::TerminalColor::Indexed(7));
    assert_eq!(cell.attrs, attrs);
    grid.reset_attrs();
    grid.write_char('y');
    let cell = grid.cell_at(0, 1).unwrap();
    assert_eq!(cell.fg_color, termind::renderer::TerminalColor::White);
    assert_eq!(cell.bg_color, termind::renderer::TerminalColor::Black);
    assert!(!cell.attrs.bold && !cell.attrs.underline);
}

#[test]
fn set_char_and_set_cell_ignore_places_off_screen() {
    let mut grid = TextGrid::new(2, 2);
    grid.set_char(2, 0, 'x');
    grid.set_char(0, 2, 'x');
    grid.set_cell(5, 5, &termind::renderer::Cell::new('x'));
    assert!(!grid.is_dirty());
    grid.set_cell(1, 1, &termind::renderer::Cell::new('k'));
    assert_eq!(grid.cell_at(1, 1).unwrap().ch, 'k');
    let dirty = grid.take_dirty_regions();
    assert_eq!(dirty.len(), 1);
    assert_eq!((dirty[0].row, dirty[0].col, dirty[0].width, dirty[0].height), (1, 1, 1, 1));
    assert!(!grid.is_dirty());
}

#[test]
fn tab_stops_are_multiples_of_eight() {
    let mut grid = TextGrid::new(1, 20);
    grid.tab();
    assert_eq!(grid.cursor_position(), (0, 8));
    grid.cursor_right(1);
    grid.tab();
    assert_eq!(grid.cursor_position(), (0, 16));
    grid.tab();
    assert_eq!(grid.cursor_position(), (0, 19));
}

#[test]
fn tab_on_widest_grid_does_not_overflow() {
    let mut grid = TextGrid::new(1, 65535);
    grid.set_cursor(0, 65530);
    grid.tab();
    assert_eq!(grid.cursor_position(), (0, 65534));
}

#[test]
fn backspace_and_carriage_return() {
    let mut grid = TextGrid::new(1, 5);
    grid.backspace();
    assert_eq!(grid.cursor_position(), (0, 0));
    grid.write_char('a');
    grid.write_char('b');
    grid.backspace();
    assert_eq!(grid.cursor_position(), (0, 1));
    assert_eq!(grid.cell_at(0, 1).unwrap().ch, 'b');
    grid.carriage_return();
    assert_eq!(grid.cursor_position(), (0, 0));
}

#[test]
fn cursor_moves_are_clamped() {
    let mut grid = TextGrid::new(10, 10);
    grid.set_cursor(100, 100);
    assert_eq!(grid.cursor_position(), (9, 9));
    grid.cursor_up(3);
    assert_eq!(grid.cursor_position(), (6, 9));
    grid.cursor_up(65535);
    assert_eq!(grid.cursor_position(), (0, 9));
    grid.cursor_down(65535);
    assert_eq!(grid.cursor_position(), (9, 9));
    grid.cursor_left(4);
    assert_eq!(grid.cursor_position(), (9, 5));
    grid.cursor_left(65535);
    assert_eq!(grid.cursor_position(), (9, 0));
    grid.cursor_right(65535);
    assert_eq!(grid.cursor_position(), (9, 9));
}

#[test]
fn cursor_stays_inside_scroll_region_vertically() {
    let mut grid = TextGrid::new(10, 10);
    grid.set_scroll_region(7, 2);
    grid.set_cursor(5, 0);
    grid.cursor_up(10);
    assert_eq!(grid.cursor_position(), (2, 0));
    grid.cursor_down(10);
    assert_eq!(grid.cursor_position(), (7, 0));
}

#[test]
fn scroll_up_moves_region_rows_to_scrollback() {
    let mut grid = TextGrid::new(5, 2);
    fill_rows(&mut grid, &['a', 'b', 'c', 'd', 'e']);
    grid.set_scroll_region(1, 3);
    grid.take_dirty_regions();
    grid.scroll_up(2);
    assert_eq!(grid.cell_at(0, 0).unwrap().ch, 'a');
    assert_eq!(grid.cell_at(1, 0).unwrap().ch, 'd');
    assert_eq!(grid.cell_at(2, 0).unwrap().ch, '\0');
    assert_eq!(grid.cell_at(3, 0).unwrap().ch, '\0');
    assert_eq!(grid.cell_at(4, 0).unwrap().ch, 'e');
    assert_eq!(grid.scrollback_len(), 2);
    assert_eq!(grid.scrollback_line(0).unwrap()[0].ch, 'b');
    assert_eq!(grid.scrollback_line(1).unwrap()[0].ch, 'c');
    assert!(grid.scrollback_line(2).is_none());
    assert_eq!(grid.scrollback().len(), 2);
    let dirty = grid.take_dirty_regions();
    assert_eq!(dirty.len(), 1);
    assert_eq!((dirty[0].row, dirty[0].col, dirty[0].width, dirty[0].height), (1, 0, 2, 3));
}

#[test]
fn scroll_up_past_region_height_pushes_blank_rows() {
    let mut grid = TextGrid::new(2, 1);
    fill_rows(&mut grid, &['a', 'b']);
    grid.scroll_up(3);
    assert_eq!(grid.cell_at(0, 0).unwrap().ch, '\0');
    assert_eq!(grid.cell_at(1, 0).unwrap().ch, '\0');
    assert_eq!(grid.scrollback_len(), 3);
    assert_eq!(grid.scrollback_line(0).unwrap()[0].ch, 'a');
    assert_eq!(grid.scrollback_line(1).unwrap()[0].ch, 'b');
    assert_eq!(grid.scrollback_line(2).unwrap()[0].ch, '\0');
}

#[test]
fn scroll_down_blanks_top_of_region() {
    let mut grid = TextGrid::new(4, 1);
    fill_rows(&mut grid, &['a', 'b', 'c', 'd']);
    grid.set_scroll_region(0, 2);
    grid.scroll_down(1);
    assert_eq!(grid.cell_at(0, 0).unwrap().ch, '\0');
    assert_eq!(grid.cell_at(1, 0).unwrap().ch, 'a');
    assert_eq!(grid.cell_at(2, 0).unwrap().ch, 'b');
    assert_eq!(grid.cell_at(3, 0).unwrap().ch, 'd');
    assert_eq!(grid.scrollback_len(), 0);
}

#[test]
fn newline_on_last_row_scrolls() {
    let mut grid = TextGrid::new(2, 3);
    grid.write_char('a');
    grid.newline();
    grid.write_char('b');
    grid.newline();
    grid.write_char('c');
    assert_eq!(grid.cursor_position(), (1, 1));
    assert_eq!(grid.cell_at(0, 0).unwrap().ch, 'b');
    assert_eq!(grid.cell_at(1, 0).unwrap().ch, 'c');
    assert_eq!(grid.scrollback_len(), 1);
    assert_eq!(grid.scrollback_line(0).unwrap()[0].ch, 'a');
}

#[test]
fn scrollback_never_exceeds_its_limit() {
    let mut grid = TextGrid::new(1, 1);
    grid.set_char(0, 0, 'x');
    grid.scroll_up(10005);
    assert_eq!(grid.scrollback_len(), 10000);
    // the written row was the oldest and has left
    assert_eq!(grid.scrollback_line(0).unwrap()[0].ch, '\0');
    grid.set_char(0, 0, 'y');
    grid.scroll_up(1);
    assert_eq!(grid.scrollback_len(), 10000);
    assert_eq!(grid.scrollback_line(9999).unwrap()[0].ch, 'y');
}

#[test]
fn clear_operations() {
    let mut grid = TextGrid::new(3, 4);
    for row in 0..3 {
        for col in 0..4 {
            grid.set_char(row, col, 'x');
        }
    }
    grid.set_cursor(1, 1);
    grid.clear_line_from_cursor();
    assert_eq!(row_text(&grid, 1), "x\0\0\0");
    grid.set_cursor(0, 2);
    grid.clear_line_to_cursor();
    assert_eq!(row_text(&grid, 0), "\0\0\0x");
    grid.set_cursor(2, 0);
    grid.clear_line();
    assert_eq!(row_text(&grid, 2), "\0\0\0\0");
    grid.take_dirty_regions();
    grid.clear_screen();
    assert_eq!(row_text(&grid, 0), "\0\0\0\0");
    assert_eq!(row_text(&grid, 1), "\0\0\0\0");
    let dirty = grid.take_dirty_regions();
    assert_eq!(dirty.len(), 1);
    assert_eq!((dirty[0].row, dirty[0].col, dirty[0].width, dirty[0].height), (0, 0, 4, 3));
}

#[test]
fn clear_screen_from_and_to_cursor() {
    let mut grid = TextGrid::new(3, 3);
    for row in 0..3 {
        for col in 0..3 {
            grid.set_char(row, col, 'x');
        }
    }
    grid.set_cursor(1, 1);
    grid.clear_screen_from_cursor();
    assert_eq!(row_text(&grid, 0), "xxx");
    assert_eq!(row_text(&grid, 1), "x\0\0");
    assert_eq!(row_text(&grid, 2), "\0\0\0");
    for row in 0..3 {
        for col in 0..3 {
            grid.set_char(row, col, 'x');
        }
    }
    grid.clear_screen_to_cursor();
    assert_eq!(row_text(&grid, 0), "\0\0\0");
    assert_eq!(row_text(&grid, 1), "\0\0x");
    assert_eq!(row_text(&grid, 2), "xxx");
}

#[test]
fn resize_growing_keeps_every_cell() {
    let mut grid = TextGrid::new(2, 2);
    grid.set_char(0, 0, 'a');
    grid.set_char(0, 1, 'b');
    grid.set_char(1, 0, 'c');
    grid.set_char(1, 1, 'd');
    grid.resize(4, 5);
    assert_eq!(row_text(&grid, 0), "ab\0\0\0");
    assert_eq!(row_text(&grid, 1), "cd\0\0\0");
    assert_eq!(row_text(&grid, 2), "\0\0\0\0\0");
    assert_eq!(row_text(&grid, 3), "\0\0\0\0\0");
    assert_eq!(grid.scrollback_len(), 0);
    assert_eq!(grid.cell_at(0, 0).unwrap().fg_color, termind::renderer::TerminalColor::White);
}

#[test]
fn resize_shrinking_rows_fills_scrollback_top_down() {
    let mut grid = TextGrid::new(5, 3);
    fill_rows(&mut grid, &['a', 'b', 'c', 'd', 'e']);
    grid.set_cursor(4, 2);
    grid.resize(2, 2);
    assert_eq!((grid.rows, grid.cols), (2, 2));
    assert_eq!(row_text(&grid, 0), "a\0");
    assert_eq!(row_text(&grid, 1), "b\0");
    assert_eq!(grid.scrollback_len(), 3);
    assert_eq!(grid.scrollback_line(0).unwrap()[0].ch, 'c');
    assert_eq!(grid.scrollback_line(1).unwrap()[0].ch, 'd');
    assert_eq!(grid.scrollback_line(2).unwrap()[0].ch, 'e');
    assert_eq!(grid.scrollback_line(0).unwrap().len(), 2);
    assert_eq!(grid.cursor_position(), (1, 1));
    let dirty = grid.take_dirty_regions();
    assert_eq!(dirty.len(), 1);
    assert_eq!((dirty[0].row, dirty[0].col, dirty[0].width, dirty[0].height), (0, 0, 2, 2));
}

#[test]
fn resize_to_same_size_changes_nothing() {
    let mut grid = TextGrid::new(3, 3);
    grid.set_scroll_region(1, 1);
    grid.resize(3, 3);
    assert!(!grid.is_dirty());
    grid.set_cursor(0, 0);
    grid.cursor_down(5);
    assert_eq!(grid.cursor_position(), (1, 0));
}

#[test]
fn resize_resets_scroll_region_to_new_height() {
    let mut grid = TextGrid::new(6, 3);
    grid.set_scroll_region(4, 5);
    grid.resize(3, 3);
    grid.set_cursor(0, 0);
    grid.cursor_down(10);
    assert_eq!(grid.cursor_position(), (2, 0));
    grid.cursor_up(10);
    assert_eq!(grid.cursor_position(), (2, 0));
}

#[test]
fn cursor_visibility_toggles() {
    let mut grid = TextGrid::new(1, 1);
    grid.set_cursor_visible(false);
    assert!(!grid.cursor_visible());
    grid.set_cursor_visible(true);
    assert!(grid.cursor_visible());
}

#[test]
fn size_getters_follow_resize() {
    let mut grid = TextGrid::new(24, 80);
    assert_eq!((grid.rows(), grid.cols()), (24, 80));
    grid.resize(30, 100);
    assert_eq!((grid.rows(), grid.cols()), (30, 100));
    assert_eq!((grid.rows, grid.cols), (30, 100));
}
