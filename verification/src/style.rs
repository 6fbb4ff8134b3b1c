//! Colors and styles of cells.
use crate::abi;
use crate::error::{Error, Result};
use vstd::prelude::*;

verus! {

/// How the text of a cell is drawn.
#[derive(Clone, Copy, Debug, PartialEq, Eq, Structural)]
pub struct Style {
    /// The color of the text.
    pub fg_color: StyleColor,
    /// The color behind the text.
    pub bg_color: StyleColor,
    /// The color of the underline.
    pub underline_color: StyleColor,
    /// Bold text.
    pub bold: bool,
    /// Italic text.
    pub italic: bool,
    /// Faint text.
    pub faint: bool,
    /// Blinking text.
    pub blink: bool,
    /// Foreground and background swapped.
    pub inverse: bool,
    /// Text that is not shown.
    pub invisible: bool,
    /// A line through the text.
    pub strikethrough: bool,
    /// A line over the text.
    pub overline: bool,
    /// A line under the text.
    pub underline: Underline,
}

/// The color of a part of a cell.
#[derive(Clone, Copy, Debug, PartialEq, Eq, Structural)]
pub enum StyleColor {
    /// No color of its own.
    NoColor,
    /// A color of the palette.
    Palette(PaletteIndex),
    /// A direct color.
    Rgb(RgbColor),
}

/// RGB color value.
#[derive(Clone, Copy, Debug, PartialEq, Eq, Hash, Default, Structural)]
pub struct RgbColor {
    /// Red color component (0-255).
    pub r: u8,
    /// Green color component (0-255).
    pub g: u8,
    /// Blue color component (0-255).
    pub b: u8,
}

/// The identifier of a style, for use with style lookups.
#[derive(Clone, Copy, Debug, PartialEq, Eq, Hash, Structural)]
pub struct Id(pub u16);

/// Palette color index (0-255).
#[derive(Clone, Copy, Debug, PartialEq, Eq, Hash, Structural)]
pub struct PaletteIndex(pub u8);

/// The indices of the sixteen named colors.
impl PaletteIndex {
    /// Black.
    pub const BLACK: u8 = 0;

    /// Red.
    pub const RED: u8 = 1;

    /// Green.
    pub const GREEN: u8 = 2;

    /// Yellow.
    pub const YELLOW: u8 = 3;

    /// Blue.
    pub const BLUE: u8 = 4;

    /// Magenta.
    pub const MAGENTA: u8 = 5;

    /// Cyan.
    pub const CYAN: u8 = 6;

    /// White.
    pub const WHITE: u8 = 7;

    /// Bright black.
    pub const BRIGHT_BLACK: u8 = 8;

    /// Bright red.
    pub const BRIGHT_RED: u8 = 9;

    /// Bright green.
    pub const BRIGHT_GREEN: u8 = 10;

    /// Bright yellow.
    pub const BRIGHT_YELLOW: u8 = 11;

    /// Bright blue.
    pub const BRIGHT_BLUE: u8 = 12;

    /// Bright magenta.
    pub const BRIGHT_MAGENTA: u8 = 13;

    /// Bright cyan.
    pub const BRIGHT_CYAN: u8 = 14;

    /// Bright white.
    pub const BRIGHT_WHITE: u8 = 15;
}

/// Underline style types.
#[derive(Clone, Copy, Debug, PartialEq, Eq, Hash, Structural)]
pub enum Underline {
    /// No underline.
    NoLine,
    /// A single line.
    Single,
    /// A double line.
    Double,
    /// A curly line.
    Curly,
    /// A dotted line.
    Dotted,
    /// A dashed line.
    Dashed,
}

impl Underline {
    /// The number that stands for this value in the engine's interface.
    pub open spec fn spec_code(self) -> u32 {
        match self {
            Underline::NoLine => 0,
            Underline::Single => 1,
            Underline::Double => 2,
            Underline::Curly => 3,
            Underline::Dotted => 4,
            Underline::Dashed => 5,
        }
    }

    /// The value that `code` stands for; a number that stands for none is an invalid value.
    pub open spec fn decoded(code: u32) -> Result<Self> {
        match code {
            0 => Ok(Underline::NoLine),
            1 => Ok(Underline::Single),
            2 => Ok(Underline::Double),
            3 => Ok(Underline::Curly),
            4 => Ok(Underline::Dotted),
            5 => Ok(Underline::Dashed),
            _ => Err(Error::InvalidValue),
        }
    }

    /// The number that stands for this value in the engine's interface.
    pub fn code(self) -> (res: u32)
        ensures
            res == self.spec_code(),
    {
        match self {
            Underline::NoLine => 0,
            Underline::Single => 1,
            Underline::Double => 2,
            Underline::Curly => 3,
            Underline::Dotted => 4,
            Underline::Dashed => 5,
        }
    }

    /// The value that `code` stands for.
    pub fn from_code(code: u32) -> (res: Result<Self>)
        ensures
            res == Self::decoded(code),
    {
        match code {
            0 => Ok(Underline::NoLine),
            1 => Ok(Underline::Single),
            2 => Ok(Underline::Double),
            3 => Ok(Underline::Curly),
            4 => Ok(Underline::Dotted),
            5 => Ok(Underline::Dashed),
            _ => Err(Error::InvalidValue),
        }
    }

    /// Every value has a number of its own, and a number decodes to the value that it stands for
    /// and to nothing else.
    pub proof fn codes_round_trip(self, code: u32)
        ensures
            Self::decoded(self.spec_code()) == Ok::<Self, Error>(self),
            Self::decoded(code) matches Ok(value) ==> value.spec_code() == code,
    {
    }
}

//----------------------------------
// Conversion from the engine's types
//----------------------------------

/// A style as the engine reports it.
#[derive(Clone, Copy, Debug)]
pub struct RawStyle {
    /// The color of the text.
    pub fg_color: RawStyleColor,
    /// The color behind the text.
    pub bg_color: RawStyleColor,
    /// The color of the underline.
    pub underline_color: RawStyleColor,
    /// Bold text.
    pub bold: bool,
    /// Italic text.
    pub italic: bool,
    /// Faint text.
    pub faint: bool,
    /// Blinking text.
    pub blink: bool,
    /// Foreground and background swapped.
    pub inverse: bool,
    /// Text that is not shown.
    pub invisible: bool,
    /// A line through the text.
    pub strikethrough: bool,
    /// A line over the text.
    pub overline: bool,
    /// The number of the underline style.
    pub underline: i32,
}

/// A color of a style as the engine reports it: a tag, and one field for each kind of color, of
/// which the tag says which one counts.
#[derive(Clone, Copy, Debug)]
pub struct RawStyleColor {
    /// The kind of color.
    pub tag: u32,
    /// The index into the palette, for a color of the palette.
    pub palette: u8,
    /// The components, for a direct color.
    pub rgb: RgbColor,
}

impl StyleColor {
    /// The color that `value` stands for.
    pub open spec fn decoded(value: RawStyleColor) -> Result<Self> {
        match value.tag {
            abi::STYLE_COLOR_NONE => Ok(StyleColor::NoColor),
            abi::STYLE_COLOR_PALETTE => Ok(StyleColor::Palette(PaletteIndex(value.palette))),
            abi::STYLE_COLOR_RGB => Ok(StyleColor::Rgb(value.rgb)),
            _ => Err(Error::InvalidValue),
        }
    }

    /// The color that `value` stands for; fails on a tag that is not known.
    pub fn from_raw(value: RawStyleColor) -> (res: Result<Self>)
        ensures
            res == Self::decoded(value),
    {
        match value.tag {
            abi::STYLE_COLOR_NONE => Ok(StyleColor::NoColor),
            abi::STYLE_COLOR_PALETTE => Ok(StyleColor::Palette(PaletteIndex(value.palette))),
            abi::STYLE_COLOR_RGB => Ok(StyleColor::Rgb(value.rgb)),
            _ => Err(Error::InvalidValue),
        }
    }
}

impl Underline {
    /// The underline style that the engine's number stands for; fails on a number that is not
    /// known.
    pub fn from_raw(value: u32) -> (res: Result<Self>)
        ensures
            res == Self::decoded(value),
    {
        Self::from_code(value)
    }
}

impl Style {
    /// The style that `value` stands for: there is one exactly if every color and the underline
    /// are known.
    pub open spec fn decoded(value: RawStyle) -> Result<Self> {
        match (
            StyleColor::decoded(value.fg_color),
            StyleColor::decoded(value.bg_color),
            StyleColor::decoded(value.underline_color),
            Underline::decoded(value.underline as u32),
        ) {
            (Ok(fg_color), Ok(bg_color), Ok(underline_color), Ok(underline)) if value.underline >= 0 => Ok(
                Style {
                    fg_color,
                    bg_color,
                    underline_color,
                    bold: value.bold,
                    italic: value.italic,
                    faint: value.faint,
                    blink: value.blink,
                    inverse: value.inverse,
                    invisible: value.invisible,
                    strikethrough: value.strikethrough,
                    overline: value.overline,
                    underline,
                },
            ),
            _ => Err(Error::InvalidValue),
        }
    }

    /// The style that `value` stands for; fails if a color or the underline is not known.
    pub fn from_raw(value: RawStyle) -> (res: Result<Self>)
        ensures
            res == Self::decoded(value),
    {
        if value.underline < 0 {
            return Err(Error::InvalidValue);
        }
        Ok(
            Style {
                fg_color: StyleColor::from_raw(value.fg_color)?,
                bg_color: StyleColor::from_raw(value.bg_color)?,
                underline_color: StyleColor::from_raw(value.underline_color)?,
                bold: value.bold,
                italic: value.italic,
                faint: value.faint,
                blink: value.blink,
                inverse: value.inverse,
                invisible: value.invisible,
                strikethrough: value.strikethrough,
                overline: value.overline,
                underline: Underline::from_raw(value.underline as u32)?,
            },
        )
    }
}

/// Whether a style comes out of `value` does not depend on the flags, only on the colors and the
/// underline.
pub proof fn flags_always_decode(value: RawStyle)
    ensures
        Style::decoded(value) is Ok <==> {
            &&& value.fg_color.tag <= 2
            &&& value.bg_color.tag <= 2
            &&& value.underline_color.tag <= 2
            &&& 0 <= value.underline <= 5
        },
{
}

impl Underline {
    /// How many styles come before this one: no line, then one line, two lines, and the patterns from
    /// curly to dashed.
    pub open spec fn number(self) -> u32 {
        if self is NoLine {
            0
        } else if self is Single {
            1
        } else if self is Double {
            2
        } else if self is Curly {
            3
        } else if self is Dotted {
            4
        } else {
            5
        }
    }

    /// The engine counts the styles in this order, and knows no others.
    pub proof fn styles_are_counted(self, code: u32)
        ensures
            self.spec_code() == self.number(),
            Self::decoded(code) == Ok::<Self, Error>(self) <==> code == self.number(),
            Self::decoded(code) is Ok <==> code <= 5,
    {
    }
}

/// A color is what the engine reported: a palette color has the reported index and a direct color the
/// reported components, and what the tag does not speak of does not count.
pub proof fn colors_carry_what_was_reported(
    value: RawStyleColor,
    index: u8,
    r: u8,
    g: u8,
    b: u8,
)
    ensures
        StyleColor::decoded(value) == Ok::<StyleColor, Error>(StyleColor::NoColor) <==> value.tag
            == 0,
        StyleColor::decoded(value) == Ok::<StyleColor, Error>(
            StyleColor::Palette(PaletteIndex(index)),
        ) <==> value.tag == 1 && value.palette == index,
        StyleColor::decoded(value) == Ok::<StyleColor, Error>(
            StyleColor::Rgb(RgbColor { r, g, b }),
        ) <==> value.tag == 2 && value.rgb.r == r && value.rgb.g == g && value.rgb.b == b,
        StyleColor::decoded(value) is Err <==> value.tag >= 3,
{
}

/// A style has every color, every flag and the underline as the engine reported them, each in its own
/// place.
pub proof fn styles_carry_what_was_reported(value: RawStyle, style: Style)
    ensures
        Style::decoded(value) == Ok::<Style, Error>(style) ==> {
            &&& StyleColor::decoded(value.fg_color) == Ok::<StyleColor, Error>(style.fg_color)
            &&& StyleColor::decoded(value.bg_color) == Ok::<StyleColor, Error>(style.bg_color)
            &&& StyleColor::decoded(value.underline_color) == Ok::<StyleColor, Error>(
                style.underline_color,
            )
            &&& style.bold == value.bold
            &&& style.italic == value.italic
            &&& style.faint == value.faint
            &&& style.blink == value.blink
            &&& style.inverse == value.inverse
            &&& style.invisible == value.invisible
            &&& style.strikethrough == value.strikethrough
            &&& style.overline == value.overline
            &&& style.underline.number() == value.underline
        },
        Style::decoded(value) is Err ==> Style::decoded(value) == Err::<Style, Error>(
            Error::InvalidValue,
        ),
{
}

} // verus!
