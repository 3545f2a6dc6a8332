//! Terminal colors and the protocol codes that select them.

use vstd::prelude::*;

verus! {

/// A color a cell can be drawn in.
#[derive(Debug, Clone, Copy, PartialEq, Eq, Structural)]
pub enum TerminalColor {
    Black,
    Red,
    Green,
    Yellow,
    Blue,
    Magenta,
    Cyan,
    White,
    BrightBlack,
    BrightRed,
    BrightGreen,
    BrightYellow,
    BrightBlue,
    BrightMagenta,
    BrightCyan,
    BrightWhite,
    /// An entry of the 256-color palette.
    Indexed(u8),
    /// A true-color value.
    Rgb { r: u8, g: u8, b: u8 },
    /// The terminal's default foreground.
    DefaultFg,
    /// The terminal's default background.
    DefaultBg,
}

impl Default for TerminalColor {
    fn default() -> (color: Self)
        ensures
            color == TerminalColor::DefaultFg,
    {
        TerminalColor::DefaultFg
    }
}

/// The color that a foreground selection code stands for: 30 to 37 are the
/// eight standard colors, 90 to 97 their bright forms, 49 the default
/// background, and every other code the default foreground.
pub open spec fn color_of_code(code: u8) -> TerminalColor {
    if code == 30 {
        TerminalColor::Black
    } else if code == 31 {
        TerminalColor::Red
    } else if code == 32 {
        TerminalColor::Green
    } else if code == 33 {
        TerminalColor::Yellow
    } else if code == 34 {
        TerminalColor::Blue
    } else if code == 35 {
        TerminalColor::Magenta
    } else if code == 36 {
        TerminalColor::Cyan
    } else if code == 37 {
        TerminalColor::White
    } else if code == 90 {
        TerminalColor::BrightBlack
    } else if code == 91 {
        TerminalColor::BrightRed
    } else if code == 92 {
        TerminalColor::BrightGreen
    } else if code == 93 {
        TerminalColor::BrightYellow
    } else if code == 94 {
        TerminalColor::BrightBlue
    } else if code == 95 {
        TerminalColor::BrightMagenta
    } else if code == 96 {
        TerminalColor::BrightCyan
    } else if code == 97 {
        TerminalColor::BrightWhite
    } else if code == 49 {
        TerminalColor::DefaultBg
    } else {
        TerminalColor::DefaultFg
    }
}

/// A color as red, green and blue parts of a whole: each channel is the
/// fraction of its number over `scale`.
#[derive(Debug, Clone, Copy, PartialEq, Eq, Structural)]
pub struct RgbRatio {
    pub red: u8,
    pub green: u8,
    pub blue: u8,
    pub scale: u8,
}

/// The palette entry `index`. Entries 0 to 15 are the sixteen named
/// colors. Entries 16 to 231 form a cube of six levels per channel: red
/// changes every 36 entries, green every 6, blue every entry. Entries 232
/// to 255 are a ramp of 24 grays from black to white.
pub open spec fn palette_entry(index: u8) -> RgbRatio {
    if index < 16 {
        named_entry(index)
    } else if index < 232 {
        RgbRatio {
            red: ((index - 16) / 36) as u8,
            green: (((index - 16) % 36) / 6) as u8,
            blue: ((index - 16) % 6) as u8,
            scale: 5,
        }
    } else {
        RgbRatio {
            red: (index - 232) as u8,
            green: (index - 232) as u8,
            blue: (index - 232) as u8,
            scale: 23,
        }
    }
}

/// The named color number `index`, 0 to 15, in fifths: a standard color
/// has its channels at four fifths, a bright one at full with the others
/// at two fifths.
pub open spec fn named_entry(index: u8) -> RgbRatio {
    let low: u8 = if index >= 8 {
        2
    } else {
        0
    };
    let high: u8 = if index >= 8 {
        5
    } else {
        4
    };
    if index == 8 {
        RgbRatio { red: 2, green: 2, blue: 2, scale: 5 }
    } else {
        RgbRatio {
            red: if index % 2 == 1 {
                high
            } else {
                low
            },
            green: if (index / 2) % 2 == 1 {
                high
            } else {
                low
            },
            blue: if (index / 4) % 2 == 1 {
                high
            } else {
                low
            },
            scale: 5,
        }
    }
}

/// The number of a named color in the palette, 0 to 15; the other colors
/// have none.
pub open spec fn palette_index(color: TerminalColor) -> Option<u8> {
    match color {
        TerminalColor::Black => Some(0u8),
        TerminalColor::Red => Some(1u8),
        TerminalColor::Green => Some(2u8),
        TerminalColor::Yellow => Some(3u8),
        TerminalColor::Blue => Some(4u8),
        TerminalColor::Magenta => Some(5u8),
        TerminalColor::Cyan => Some(6u8),
        TerminalColor::White => Some(7u8),
        TerminalColor::BrightBlack => Some(8u8),
        TerminalColor::BrightRed => Some(9u8),
        TerminalColor::BrightGreen => Some(10u8),
        TerminalColor::BrightYellow => Some(11u8),
        TerminalColor::BrightBlue => Some(12u8),
        TerminalColor::BrightMagenta => Some(13u8),
        TerminalColor::BrightCyan => Some(14u8),
        TerminalColor::BrightWhite => Some(15u8),
        _ => None,
    }
}

/// The red, green and blue of a color. A named color has its palette
/// entry, an indexed color the entry of its index, a true color its own
/// channels over 255. The default foreground is a light gray of nine
/// tenths, the default background black.
pub open spec fn rgb_of(color: TerminalColor) -> RgbRatio {
    match color {
        TerminalColor::Indexed(index) => palette_entry(index),
        TerminalColor::Rgb { r, g, b } => RgbRatio { red: r, green: g, blue: b, scale: 255 },
        TerminalColor::DefaultFg => RgbRatio { red: 9, green: 9, blue: 9, scale: 10 },
        TerminalColor::DefaultBg => RgbRatio { red: 0, green: 0, blue: 0, scale: 10 },
        _ => named_entry(palette_index(color).unwrap()),
    }
}

/// Every channel of a color lies between nothing and the whole.
pub proof fn lemma_channels_in_range(color: TerminalColor)
    ensures
        rgb_of(color).scale > 0,
        rgb_of(color).red <= rgb_of(color).scale,
        rgb_of(color).green <= rgb_of(color).scale,
        rgb_of(color).blue <= rgb_of(color).scale,
{
}

/// The first sixteen palette entries are the named colors.
pub proof fn lemma_palette_starts_with_named_colors(color: TerminalColor)
    requires
        palette_index(color).is_some(),
    ensures
        rgb_of(TerminalColor::Indexed(palette_index(color).unwrap())) == rgb_of(color),
{
}

impl TerminalColor {
    /// The red, green and blue of the color as fractions.
    pub fn to_rgb(self) -> (rgb: RgbRatio)
        ensures
            rgb == rgb_of(self),
    {
        match self {
            TerminalColor::Black => RgbRatio { red: 0, green: 0, blue: 0, scale: 5 },
            TerminalColor::Red => RgbRatio { red: 4, green: 0, blue: 0, scale: 5 },
            TerminalColor::Green => RgbRatio { red: 0, green: 4, blue: 0, scale: 5 },
            TerminalColor::Yellow => RgbRatio { red: 4, green: 4, blue: 0, scale: 5 },
            TerminalColor::Blue => RgbRatio { red: 0, green: 0, blue: 4, scale: 5 },
            TerminalColor::Magenta => RgbRatio { red: 4, green: 0, blue: 4, scale: 5 },
            TerminalColor::Cyan => RgbRatio { red: 0, green: 4, blue: 4, scale: 5 },
            TerminalColor::White => RgbRatio { red: 4, green: 4, blue: 4, scale: 5 },
            TerminalColor::BrightBlack => RgbRatio { red: 2, green: 2, blue: 2, scale: 5 },
            TerminalColor::BrightRed => RgbRatio { red: 5, green: 2, blue: 2, scale: 5 },
            TerminalColor::BrightGreen => RgbRatio { red: 2, green: 5, blue: 2, scale: 5 },
            TerminalColor::BrightYellow => RgbRatio { red: 5, green: 5, blue: 2, scale: 5 },
            TerminalColor::BrightBlue => RgbRatio { red: 2, green: 2, blue: 5, scale: 5 },
            TerminalColor::BrightMagenta => RgbRatio { red: 5, green: 2, blue: 5, scale: 5 },
            TerminalColor::BrightCyan => RgbRatio { red: 2, green: 5, blue: 5, scale: 5 },
            TerminalColor::BrightWhite => RgbRatio { red: 5, green: 5, blue: 5, scale: 5 },
            TerminalColor::Indexed(index) => Self::indexed_to_rgb(index),
            TerminalColor::Rgb { r, g, b } => RgbRatio { red: r, green: g, blue: b, scale: 255 },
            TerminalColor::DefaultFg => RgbRatio { red: 9, green: 9, blue: 9, scale: 10 },
            TerminalColor::DefaultBg => RgbRatio { red: 0, green: 0, blue: 0, scale: 10 },
        }
    }

    /// The palette entry `index` as fractions.
    pub fn indexed_to_rgb(index: u8) -> (rgb: RgbRatio)
        ensures
            rgb == palette_entry(index),
    {
        if index < 16 {
            let bright: bool = index >= 8;
            let low: u8 = if bright {
                2
            } else {
                0
            };
            let high: u8 = if bright {
                5
            } else {
                4
            };
            if index == 8 {
                RgbRatio { red: 2, green: 2, blue: 2, scale: 5 }
            } else {
                RgbRatio {
                    red: if index % 2 == 1 {
                        high
                    } else {
                        low
                    },
                    green: if (index / 2) % 2 == 1 {
                        high
                    } else {
                        low
                    },
                    blue: if (index / 4) % 2 == 1 {
                        high
                    } else {
                        low
                    },
                    scale: 5,
                }
            }
        } else if index < 232 {
            let cell: u8 = index - 16;
            RgbRatio { red: cell / 36, green: (cell % 36) / 6, blue: cell % 6, scale: 5 }
        } else {
            let gray: u8 = index - 232;
            RgbRatio { red: gray, green: gray, blue: gray, scale: 23 }
        }
    }

    /// Maps a foreground selection code to its color.
    pub fn from_ansi_code(code: u8) -> (color: Self)
        ensures
            color == color_of_code(code),
    {
        match code {
            30 => TerminalColor::Black,
            31 => TerminalColor::Red,
            32 => TerminalColor::Green,
            33 => TerminalColor::Yellow,
            34 => TerminalColor::Blue,
            35 => TerminalColor::Magenta,
            36 => TerminalColor::Cyan,
            37 => TerminalColor::White,
            90 => TerminalColor::BrightBlack,
            91 => TerminalColor::BrightRed,
            92 => TerminalColor::BrightGreen,
            93 => TerminalColor::BrightYellow,
            94 => TerminalColor::BrightBlue,
            95 => TerminalColor::BrightMagenta,
            96 => TerminalColor::BrightCyan,
            97 => TerminalColor::BrightWhite,
            39 => TerminalColor::DefaultFg,
            49 => TerminalColor::DefaultBg,
            _ => TerminalColor::DefaultFg,
        }
    }
}

} // verus!
