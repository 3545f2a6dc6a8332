//! The protocol interpreter: it feeds the bytes of a terminal stream to the
//! state machine and applies the actions that come back to its grid.

use crate::renderer::colors::TerminalColor;
use crate::renderer::grid::{CellAttributes, TextGrid};
use crate::renderer::machine::{
    action_views, at_ground, feed, new_machine, stepped, Action, ActionView,
};
use crate::renderer::screen::{selector_args, Pen, Screen};
use vstd::prelude::*;

verus! {

/// Performs the actions of the state machine on a grid, with the pen that
/// styles what it prints.
pub struct ParserPerformer {
    grid: TextGrid,
    current_attrs: CellAttributes,
    current_fg: TerminalColor,
    current_bg: TerminalColor,
}

impl View for ParserPerformer {
    type V = Screen;

    closed spec fn view(&self) -> Screen {
        Screen {
            grid: self.grid@,
            pen: Pen { attrs: self.current_attrs, fg: self.current_fg, bg: self.current_bg },
        }
    }
}

impl ParserPerformer {
    /// The invariant of a performer: that of its screen.
    pub open spec fn wf(&self) -> bool {
        self@.wf()
    }

    /// A performer on a blank grid of `rows` by `cols` cells.
    pub fn new(rows: u16, cols: u16) -> (performer: Self)
        requires
            rows >= 1,
            cols >= 1,
        ensures
            performer.wf(),
            performer@ == Screen::fresh(rows as int, cols as int),
    {
        ParserPerformer {
            grid: TextGrid::new(rows, cols),
            current_attrs: CellAttributes::default(),
            current_fg: TerminalColor::White,
            current_bg: TerminalColor::Black,
        }
    }

    /// Prints `c` at the cursor in the pen's style.
    pub fn print(&mut self, c: char)
        requires
            old(self).wf(),
        ensures
            final(self).wf(),
            final(self)@ == old(self)@.print(c),
    {
        self.grid.set_attrs(self.current_attrs);
        self.grid.set_fg_color(self.current_fg);
        self.grid.set_bg_color(self.current_bg);
        self.grid.write_char(c);
    }

    /// Executes a control byte: line feed, carriage return, tab or
    /// backspace; any other byte is ignored.
    pub fn execute(&mut self, byte: u8)
        requires
            old(self).wf(),
        ensures
            final(self).wf(),
            final(self)@ == old(self)@.execute(byte),
    {
        if byte == 0x0a {
            self.grid.newline();
        } else if byte == 0x0d {
            self.grid.carriage_return();
        } else if byte == 0x09 {
            self.grid.tab();
        } else if byte == 0x08 {
            self.grid.backspace();
        }
    }

    /// Applies one graphic-rendition code to the pen.
    fn apply_code(&mut self, code: u16)
        ensures
            final(self)@ == (Screen { pen: old(self)@.pen.with_code(code), ..old(self)@ }),
    {
        if code == 0 {
            self.current_attrs = CellAttributes::default();
            self.current_fg = TerminalColor::DefaultFg;
            self.current_bg = TerminalColor::DefaultBg;
        } else if code == 1 {
            self.current_attrs.bold = true;
        } else if code == 3 {
            self.current_attrs.italic = true;
        } else if code == 4 {
            self.current_attrs.underline = true;
        } else if code == 5 {
            self.current_attrs.blink = true;
        } else if code == 7 {
            self.current_attrs.reverse = true;
        } else if code == 9 {
            self.current_attrs.strikethrough = true;
        } else if code == 22 {
            self.current_attrs.bold = false;
        } else if code == 23 {
            self.current_attrs.italic = false;
        } else if code == 24 {
            self.current_attrs.underline = false;
        } else if code == 25 {
            self.current_attrs.blink = false;
        } else if code == 27 {
            self.current_attrs.reverse = false;
        } else if code == 29 {
            self.current_attrs.strikethrough = false;
        } else if (30 <= code && code <= 37) || (90 <= code && code <= 97) {
            self.current_fg = TerminalColor::from_ansi_code(code as u8);
        } else if code == 39 {
            self.current_fg = TerminalColor::DefaultFg;
        } else if (40 <= code && code <= 47) || (100 <= code && code <= 107) {
            self.current_bg = TerminalColor::from_ansi_code((code - 10) as u8);
        } else if code == 49 {
            self.current_bg = TerminalColor::DefaultBg;
        }
    }

    /// Selects the graphic rendition: with no parameter the pen is reset,
    /// else each code is applied in order. The arguments of the extended
    /// color selectors 38 and 48 are passed over; the selectors themselves
    /// change nothing.
    pub fn handle_sgr(&mut self, params: &Vec<u16>)
        ensures
            final(self)@ == (Screen { pen: old(self)@.pen.sgr(params@), ..old(self)@ }),
    {
        let count: usize = params.len();
        if count == 0 {
            self.apply_code(0);
            return ;
        }
        let mut at: usize = 0;
        while at < count
            invariant
                at <= count,
                count == params@.len(),
                self@.grid == old(self)@.grid,
                self@.pen.sgr_from(params@, at as int) == old(self)@.pen.sgr_from(params@, 0),
            decreases count - at,
        {
            let code: u16 = params[at];
            self.apply_code(code);
            let left: usize = count - at - 1;
            let mut skip: usize = 0;
            if (code == 38 || code == 48) && left > 0 {
                let kind: u16 = params[at + 1];
                if kind == 5 {
                    skip = if left < 2 {
                        left
                    } else {
                        2
                    };
                } else if kind == 2 {
                    skip = if left < 4 {
                        left
                    } else {
                        4
                    };
                }
            }
            assert(skip == selector_args(params@, at as int));
            at = at + 1 + skip;
        }
    }

    /// Dispatches a control sequence by its final character `action`.
    pub fn csi_dispatch(&mut self, params: &Vec<u16>, action: char)
        requires
            old(self).wf(),
        ensures
            final(self).wf(),
            final(self)@ == old(self)@.csi(params@, action),
    {
        let has_first: bool = params.len() > 0;
        let first_or_one: u16 = if has_first {
            params[0]
        } else {
            1
        };
        let first_or_zero: u16 = if has_first {
            params[0]
        } else {
            0
        };
        let count: u16 = if first_or_zero == 0 {
            1
        } else {
            first_or_zero
        };
        if action == 'A' {
            self.grid.cursor_up(count);
        } else if action == 'B' {
            self.grid.cursor_down(count);
        } else if action == 'C' {
            self.grid.cursor_right(count);
        } else if action == 'D' {
            self.grid.cursor_left(count);
        } else if action == 'H' || action == 'f' {
            let second_or_one: u16 = if params.len() > 1 {
                params[1]
            } else {
                1
            };
            let row: u16 = if first_or_one > 0 {
                first_or_one - 1
            } else {
                0
            };
            let col: u16 = if second_or_one > 0 {
                second_or_one - 1
            } else {
                0
            };
            self.grid.set_cursor(row, col);
        } else if action == 'J' {
            if first_or_zero == 0 {
                self.grid.clear_screen_from_cursor();
            } else if first_or_zero == 1 {
                self.grid.clear_screen_to_cursor();
            } else if first_or_zero == 2 {
                self.grid.clear_screen();
            }
        } else if action == 'K' {
            if first_or_zero == 0 {
                self.grid.clear_line_from_cursor();
            } else if first_or_zero == 1 {
                self.grid.clear_line_to_cursor();
            } else if first_or_zero == 2 {
                self.grid.clear_line();
            }
        } else if action == 'S' {
            self.grid.scroll_up(count);
        } else if action == 'T' {
            self.grid.scroll_down(count);
        } else if action == 'm' {
            self.handle_sgr(params);
        } else if action == 'h' {
            if first_or_zero == 25 {
                self.grid.set_cursor_visible(true);
            }
        } else if action == 'l' {
            if first_or_zero == 25 {
                self.grid.set_cursor_visible(false);
            }
        }
    }

    /// Performs one action of the state machine.
    pub fn perform(&mut self, action: &Action)
        requires
            old(self).wf(),
        ensures
            final(self).wf(),
            final(self)@ == old(self)@.perform(action@),
    {
        match action {
            Action::Print(c) => self.print(*c),
            Action::Execute(byte) => self.execute(*byte),
            Action::CsiDispatch { params, action } => self.csi_dispatch(params, *action),
            _ => {},
        }
    }

    /// Performs a list of actions in order.
    pub fn perform_all(&mut self, actions: &Vec<Action>)
        requires
            old(self).wf(),
        ensures
            final(self).wf(),
            final(self)@ == old(self)@.perform_all(action_views(actions@)),
    {
        let ghost views = action_views(actions@);
        let count: usize = actions.len();
        let mut done: usize = 0;
        assert(views.take(0) =~= Seq::<ActionView>::empty());
        while done < count
            invariant
                done <= count,
                count == actions@.len(),
                views == action_views(actions@),
                self.wf(),
                self@ == old(self)@.perform_all(views.take(done as int)),
            decreases count - done,
        {
            self.perform(&actions[done]);
            assert(views.take(done + 1).drop_last() =~= views.take(done as int));
            assert(views.take(done + 1).last() == actions@[done as int]@);
            done += 1;
        }
        assert(views.take(count as int) =~= views);
    }

    /// The grid.
    pub fn grid(&self) -> (grid: &TextGrid)
        ensures
            grid@ == self@.grid,
    {
        &self.grid
    }

    /// The grid, to be changed in place; the pen stays.
    pub fn grid_mut(&mut self) -> (grid: &mut TextGrid)
        ensures
            grid@ == old(self)@.grid,
            final(self)@ == (Screen { grid: final(grid)@, ..old(self)@ }),
    {
        &mut self.grid
    }

    /// Resizes the grid; the pen stays.
    pub fn resize(&mut self, rows: u16, cols: u16)
        requires
            old(self).wf(),
            rows >= 1,
            cols >= 1,
        ensures
            final(self).wf(),
            final(self)@ == (Screen {
                grid: old(self)@.grid.resize(rows as int, cols as int),
                ..old(self)@
            }),
    {
        self.grid.resize(rows, cols);
    }
}

/// Whether every byte of `bytes` is one that a state machine at rest
/// prints: 0x20 to 0x7f.
pub open spec fn printable(bytes: Seq<u8>) -> bool {
    forall|i: int| 0 <= i < bytes.len() ==> 0x20 <= #[trigger] bytes[i] <= 0x7f
}

/// The state machine and the screen after `bytes` were fed, one by one,
/// to `machine`, and the actions that each byte brought were performed on
/// `screen`.
pub open spec fn run(machine: vte::Parser, screen: Screen, bytes: Seq<u8>) -> (vte::Parser, Screen)
    decreases bytes.len(),
{
    if bytes.len() == 0 {
        (machine, screen)
    } else {
        let (before, shown) = run(machine, screen, bytes.drop_last());
        let (after, actions) = stepped(before, bytes.last());
        (after, shown.perform_all(actions))
    }
}

/// The interpreter of a terminal stream, with the grid it writes to.
pub struct TerminalParser {
    parser: vte::Parser,
    performer: ParserPerformer,
}

impl View for TerminalParser {
    type V = Screen;

    closed spec fn view(&self) -> Screen {
        self.performer@
    }
}

impl TerminalParser {
    /// The state machine of the interpreter.
    pub closed spec fn machine(&self) -> vte::Parser {
        self.parser
    }

    /// The invariant of an interpreter: that of its screen.
    pub open spec fn wf(&self) -> bool {
        self@.wf()
    }

    /// An interpreter with a blank grid of `rows` by `cols` cells, the
    /// initial pen and a state machine at rest.
    pub fn new(rows: u16, cols: u16) -> (parser: Self)
        requires
            rows >= 1,
            cols >= 1,
        ensures
            parser.wf(),
            parser@ == Screen::fresh(rows as int, cols as int),
            at_ground(parser.machine()),
    {
        TerminalParser { parser: new_machine(), performer: ParserPerformer::new(rows, cols) }
    }

    /// Interprets `data`: each byte goes to the state machine, and the
    /// actions it brings are performed on the grid before the next byte is
    /// looked at. When the state machine is at rest and the bytes are all
    /// printable, each byte is printed as a character and the machine is at
    /// rest again.
    pub fn parse(&mut self, data: &[u8])
        requires
            old(self).wf(),
        ensures
            final(self).wf(),
            (final(self).machine(), final(self)@) == run(old(self).machine(), old(self)@, data@),
            at_ground(old(self).machine()) && printable(data@) ==> at_ground(final(self).machine())
                && final(self)@ == old(self)@.print_all(data@),
    {
        let count: usize = data.len();
        let mut done: usize = 0;
        assert(data@.take(0) =~= Seq::<u8>::empty());
        while done < count
            invariant
                done <= count,
                count == data@.len(),
                self.wf(),
                (self.machine(), self@) == run(
                    old(self).machine(),
                    old(self)@,
                    data@.take(done as int),
                ),
                at_ground(old(self).machine()) && printable(data@) ==> at_ground(self.machine())
                    && self@ == old(self)@.print_all(data@.take(done as int)),
            decreases count - done,
        {
            let byte: u8 = data[done];
            let ghost shown = self@;
            let actions = feed(&mut self.parser, byte);
            self.performer.perform_all(&actions);
            proof {
                let fed = data@.take(done + 1);
                assert(fed.drop_last() =~= data@.take(done as int));
                assert(fed.last() == byte);
                if at_ground(old(self).machine()) && printable(data@) {
                    let one = seq![ActionView::Print(byte as char)];
                    assert(one.drop_last() =~= Seq::<ActionView>::empty());
                    assert(shown.perform_all(one.drop_last()) == shown);
                    assert(shown.perform_all(one) == shown.print(byte as char));
                }
            }
            done += 1;
        }
        assert(data@.take(count as int) =~= data@);
    }

    /// The grid of the interpreter.
    pub fn grid(&self) -> (grid: &TextGrid)
        ensures
            grid@ == self@.grid,
    {
        self.performer.grid()
    }

    /// The grid of the interpreter, to be changed in place. The pen and
    /// the state machine stay as they are.
    pub fn grid_mut(&mut self) -> (grid: &mut TextGrid)
        ensures
            grid@ == old(self)@.grid,
            final(self)@ == (Screen { grid: final(grid)@, ..old(self)@ }),
            final(self).machine() == old(self).machine(),
    {
        self.performer.grid_mut()
    }

    /// Resizes the grid of the interpreter. The pen and the state machine
    /// stay as they are.
    pub fn resize(&mut self, rows: u16, cols: u16)
        requires
            old(self).wf(),
            rows >= 1,
            cols >= 1,
        ensures
            final(self).wf(),
            final(self)@ == (Screen {
                grid: old(self)@.grid.resize(rows as int, cols as int),
                ..old(self)@
            }),
            final(self).machine() == old(self).machine(),
    {
        self.performer.resize(rows, cols);
    }
}

} // verus!
