//! What the terminal protocol does to a screen, as mathematics: the pen
//! that styles printed characters, and the effect of each action of the
//! state machine.

use crate::renderer::colors::{color_of_code, TerminalColor};
use crate::renderer::grid::CellAttributes;
use crate::renderer::machine::ActionView;
use crate::renderer::model::{at_least, at_most, GridState};
use vstd::prelude::*;

verus! {

/// The style that the interpreter gives to the characters it prints.
pub struct Pen {
    pub attrs: CellAttributes,
    pub fg: TerminalColor,
    pub bg: TerminalColor,
}

impl Pen {
    /// The pen of a new interpreter: white on black, no attribute.
    pub open spec fn initial() -> Pen {
        Pen { attrs: CellAttributes::plain(), fg: TerminalColor::White, bg: TerminalColor::Black }
    }

    /// The pen after a reset: default colors, no attribute.
    pub open spec fn cleared() -> Pen {
        Pen {
            attrs: CellAttributes::plain(),
            fg: TerminalColor::DefaultFg,
            bg: TerminalColor::DefaultBg,
        }
    }

    /// The pen after one graphic-rendition code. 0 resets it; 1, 3, 4, 5,
    /// 7 and 9 set bold, italic, underline, blink, reverse and
    /// strikethrough, and 22, 23, 24, 25, 27 and 29 clear them; 30 to 37
    /// and 90 to 97 select the foreground, 39 the default foreground; 40
    /// to 47 and 100 to 107 give the background the color of the
    /// foreground code that lies 10 below, 49 the default background. Any
    /// other code changes nothing.
    pub open spec fn with_code(self, code: u16) -> Pen {
        if code == 0 {
            Pen::cleared()
        } else if code == 1 {
            Pen { attrs: CellAttributes { bold: true, ..self.attrs }, ..self }
        } else if code == 3 {
            Pen { attrs: CellAttributes { italic: true, ..self.attrs }, ..self }
        } else if code == 4 {
            Pen { attrs: CellAttributes { underline: true, ..self.attrs }, ..self }
        } else if code == 5 {
            Pen { attrs: CellAttributes { blink: true, ..self.attrs }, ..self }
        } else if code == 7 {
            Pen { attrs: CellAttributes { reverse: true, ..self.attrs }, ..self }
        } else if code == 9 {
            Pen { attrs: CellAttributes { strikethrough: true, ..self.attrs }, ..self }
        } else if code == 22 {
            Pen { attrs: CellAttributes { bold: false, ..self.attrs }, ..self }
        } else if code == 23 {
            Pen { attrs: CellAttributes { italic: false, ..self.attrs }, ..self }
        } else if code == 24 {
            Pen { attrs: CellAttributes { underline: false, ..self.attrs }, ..self }
        } else if code == 25 {
            Pen { attrs: CellAttributes { blink: false, ..self.attrs }, ..self }
        } else if code == 27 {
            Pen { attrs: CellAttributes { reverse: false, ..self.attrs }, ..self }
        } else if code == 29 {
            Pen { attrs: CellAttributes { strikethrough: false, ..self.attrs }, ..self }
        } else if 30 <= code <= 37 || 90 <= code <= 97 {
            Pen { fg: color_of_code(code as u8), ..self }
        } else if code == 39 {
            Pen { fg: TerminalColor::DefaultFg, ..self }
        } else if 40 <= code <= 47 || 100 <= code <= 107 {
            Pen { bg: color_of_code((code - 10) as u8), ..self }
        } else if code == 49 {
            Pen { bg: TerminalColor::DefaultBg, ..self }
        } else {
            self
        }
    }

    /// The pen after the codes of `params` from index `at` on, each
    /// applied in turn. The arguments of an extended color selector are
    /// passed over, not read as codes.
    pub open spec fn sgr_from(self, params: Seq<u16>, at: int) -> Pen
        decreases params.len() - at,
    {
        if 0 <= at < params.len() {
            self.with_code(params[at]).sgr_from(params, at + 1 + selector_args(params, at))
        } else {
            self
        }
    }

    /// The pen after a graphic-rendition sequence: reset when it has no
    /// parameter, else each code applied in order.
    pub open spec fn sgr(self, params: Seq<u16>) -> Pen {
        if params.len() == 0 {
            Pen::cleared()
        } else {
            self.sgr_from(params, 0)
        }
    }
}

/// How many of the parameters after index `at` are arguments of the code
/// there. Only the extended color selectors 38 and 48 take arguments: two
/// when the next parameter is 5 (an index into the palette follows), four
/// when it is 2 (red, green and blue follow), as far as the list goes.
pub open spec fn selector_args(params: Seq<u16>, at: int) -> int {
    if (params[at] == 38 || params[at] == 48) && at + 1 < params.len() {
        if params[at + 1] == 5 {
            at_most(2, params.len() - at - 1)
        } else if params[at + 1] == 2 {
            at_most(4, params.len() - at - 1)
        } else {
            0
        }
    } else {
        0
    }
}

/// The parameter at `index`, or `default` when the list has none there.
pub open spec fn param_or(params: Seq<u16>, index: int, default: int) -> int {
    if index < params.len() {
        params[index] as int
    } else {
        default
    }
}

/// The count that a control sequence gives in its first parameter. A
/// parameter that is left out or 0 counts as 1: the state machine reports
/// a parameter that was left out as 0.
pub open spec fn count_of(params: Seq<u16>) -> int {
    if params.len() > 0 && params[0] != 0 {
        params[0] as int
    } else {
        1
    }
}

/// A screen and the pen of the interpreter that writes to it.
pub struct Screen {
    pub grid: GridState,
    pub pen: Pen,
}

impl Screen {
    /// The invariant of a screen: that of its grid.
    pub open spec fn wf(self) -> bool {
        self.grid.wf()
    }

    /// A blank screen with the initial pen.
    pub open spec fn fresh(rows: int, cols: int) -> Screen {
        Screen { grid: GridState::fresh(rows, cols), pen: Pen::initial() }
    }

    /// Printing `c`: the grid takes the pen as its pending style and
    /// writes the character at the cursor.
    pub open spec fn print(self, c: char) -> Screen {
        Screen {
            grid: GridState {
                attrs: self.pen.attrs,
                fg: self.pen.fg,
                bg: self.pen.bg,
                ..self.grid
            }.write_char(c),
            ..self
        }
    }

    /// Executing a control byte: line feed, carriage return, tab and
    /// backspace act on the grid, any other byte does nothing.
    pub open spec fn execute(self, byte: u8) -> Screen {
        if byte == 0x0a {
            Screen { grid: self.grid.newline(), ..self }
        } else if byte == 0x0d {
            Screen { grid: self.grid.carriage_return(), ..self }
        } else if byte == 0x09 {
            Screen { grid: self.grid.tab(), ..self }
        } else if byte == 0x08 {
            Screen { grid: self.grid.backspace(), ..self }
        } else {
            self
        }
    }

    /// A control sequence with the final character `action`.
    ///
    /// `A`, `B`, `C`, `D` move the cursor up, down, right, left by the
    /// count of the sequence, which is 1 unless the first parameter says
    /// more. `H` and `f` put the cursor at the row and column that the
    /// first two parameters give, counted from 1. `J` erases in the
    /// display and `K` in the cursor's line: from the cursor on for 0 or
    /// no parameter, up to the cursor for 1, all of it for 2. `S` and `T`
    /// scroll the region up and down by the count. `m` selects the
    /// graphic rendition. `h` and `l` with 25 as first parameter show and
    /// hide the cursor. Any other sequence does nothing.
    pub open spec fn csi(self, params: Seq<u16>, action: char) -> Screen {
        if action == 'A' {
            Screen { grid: self.grid.cursor_up(count_of(params)), ..self }
        } else if action == 'B' {
            Screen { grid: self.grid.cursor_down(count_of(params)), ..self }
        } else if action == 'C' {
            Screen { grid: self.grid.cursor_right(count_of(params)), ..self }
        } else if action == 'D' {
            Screen { grid: self.grid.cursor_left(count_of(params)), ..self }
        } else if action == 'H' || action == 'f' {
            Screen {
                grid: self.grid.set_cursor(
                    at_least(param_or(params, 0, 1) - 1, 0),
                    at_least(param_or(params, 1, 1) - 1, 0),
                ),
                ..self
            }
        } else if action == 'J' {
            let mode = param_or(params, 0, 0);
            if mode == 0 {
                Screen { grid: self.grid.clear_screen_from_cursor(), ..self }
            } else if mode == 1 {
                Screen { grid: self.grid.clear_screen_to_cursor(), ..self }
            } else if mode == 2 {
                Screen { grid: self.grid.clear_screen(), ..self }
            } else {
                self
            }
        } else if action == 'K' {
            let mode = param_or(params, 0, 0);
            if mode == 0 {
                Screen { grid: self.grid.clear_line_from_cursor(), ..self }
            } else if mode == 1 {
                Screen { grid: self.grid.clear_line_to_cursor(), ..self }
            } else if mode == 2 {
                Screen { grid: self.grid.clear_line(), ..self }
            } else {
                self
            }
        } else if action == 'S' {
            Screen { grid: self.grid.scroll_up(count_of(params)), ..self }
        } else if action == 'T' {
            Screen { grid: self.grid.scroll_down(count_of(params)), ..self }
        } else if action == 'm' {
            Screen { pen: self.pen.sgr(params), ..self }
        } else if action == 'h' {
            if param_or(params, 0, 0) == 25 {
                Screen { grid: GridState { cursor_visible: true, ..self.grid }, ..self }
            } else {
                self
            }
        } else if action == 'l' {
            if param_or(params, 0, 0) == 25 {
                Screen { grid: GridState { cursor_visible: false, ..self.grid }, ..self }
            } else {
                self
            }
        } else {
            self
        }
    }

    /// One action of the state machine. Device control strings, operating
    /// system commands and plain escape sequences do nothing.
    pub open spec fn perform(self, action: ActionView) -> Screen {
        match action {
            ActionView::Print(c) => self.print(c),
            ActionView::Execute(byte) => self.execute(byte),
            ActionView::CsiDispatch { params, action } => self.csi(params, action),
            _ => self,
        }
    }

    /// A list of actions, each performed in turn.
    pub open spec fn perform_all(self, actions: Seq<ActionView>) -> Screen
        decreases actions.len(),
    {
        if actions.len() == 0 {
            self
        } else {
            self.perform_all(actions.drop_last()).perform(actions.last())
        }
    }

    /// Each byte of `text` printed as a character, in turn.
    pub open spec fn print_all(self, text: Seq<u8>) -> Screen
        decreases text.len(),
    {
        if text.len() == 0 {
            self
        } else {
            self.print_all(text.drop_last()).print(text.last() as char)
        }
    }
}

} // verus!
