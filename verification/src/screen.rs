//! Terminal screen cell and row types.
//!
//! These types represent the contents of a terminal screen. A [`Cell`] is a single grid cell and a
//! [`Row`] is a single row. Both are opaque values whose fields are accessed via their methods.
use crate::buffer::{overwrite, overwritten, BufReply};
use crate::error::{Error, Result};
use crate::reply::{answered, get, Reply};
use crate::style::{Id, PaletteIndex, RawStyle, RgbColor, Style};
use vstd::prelude::*;

verus! {

/// Resolved reference to a terminal cell position.
///
/// A grid reference is a resolved reference to a specific cell position in the terminal's internal
/// page structure. Obtain one from [`Terminal::grid_ref`](crate::terminal::Terminal::grid_ref),
/// then extract the cell or row via [`GridRef::cell`] and [`GridRef::row`].
///
/// A grid reference is only valid until the next update to the terminal instance, so any
/// information related to it should be read and cached immediately after obtaining it.
///
/// This is not meant to be used as the core of a render loop. Use the render state for that.
#[derive(Clone, Copy, Debug, PartialEq, Eq, Structural)]
pub struct GridRef {
    /// The address of the page's node.
    pub node: usize,
    /// The column within the page.
    pub x: u16,
    /// The row within the page.
    pub y: u16,
}

impl GridRef {
    /// Get the row from a grid reference.
    pub fn row(&self, query: impl FnOnce(GridRef) -> Reply<u64>) -> (res: Result<Row>)
        requires
            query.requires((*self,)),
        ensures
            exists|reply: Reply<u64>| #[trigger]
                query.ensures((*self,), reply) && res == match reply.outcome() {
                    Ok(value) => Ok(Row(value)),
                    Err(e) => Err(e),
                },
    {
        match query(*self).into_result() {
            Ok(value) => Ok(Row(value)),
            Err(e) => Err(e),
        }
    }

    /// Get the cell from a grid reference.
    pub fn cell(&self, query: impl FnOnce(GridRef) -> Reply<u64>) -> (res: Result<Cell>)
        requires
            query.requires((*self,)),
        ensures
            cell_told(query, *self, res),
    {
        match query(*self).into_result() {
            Ok(value) => Ok(Cell(value)),
            Err(e) => Err(e),
        }
    }

    /// Get the style of the cell at the grid reference's position.
    pub fn style(&self, query: impl FnOnce(GridRef) -> Reply<RawStyle>) -> (res: Result<Style>)
        requires
            query.requires((*self,)),
        ensures
            exists|reply: Reply<RawStyle>| #[trigger]
                query.ensures((*self,), reply) && res == match reply.outcome() {
                    Ok(value) => Style::decoded(value),
                    Err(e) => Err(e),
                },
    {
        match query(*self).into_result() {
            Ok(value) => Style::from_raw(value),
            Err(e) => Err(e),
        }
    }

    /// Get the grapheme cluster codepoints for the cell at the grid reference's position.
    ///
    /// Writes the full grapheme cluster (the cell's primary codepoint followed by any combining
    /// codepoints) to the front of the buffer and returns how many there are. If the cell has no
    /// text, `Ok(0)` is returned.
    ///
    /// If the buffer is too small, this returns `OutOfSpace` with the number of codepoints that it
    /// has to hold.
    pub fn graphemes(
        &self,
        buf: &mut [char],
        query: impl FnOnce(GridRef, usize) -> BufReply<char>,
    ) -> (res: Result<usize>)
        requires
            query.requires((*self, old(buf)@.len() as usize)),
            forall|reply: BufReply<char>| #[trigger]
                query.ensures((*self, old(buf)@.len() as usize), reply) ==> reply.fits(
                    old(buf)@.len() as usize,
                ),
        ensures
            exists|reply: BufReply<char>|
                {
                    &&& #[trigger] query.ensures((*self, old(buf)@.len() as usize), reply)
                    &&& res == reply.outcome()
                    &&& final(buf)@ == overwritten(old(buf)@, reply.out@)
                },
    {
        let reply = query(*self, buf.len());
        overwrite(buf, &reply.out);
        reply.result()
    }
}

/// A range of cells between two positions.
#[derive(Clone, Copy, Debug, PartialEq, Eq, Structural)]
pub struct Selection {
    /// Where the selection starts.
    pub start: GridRef,
    /// Where the selection ends.
    pub end: GridRef,
    /// Whether the two positions are corners of a rectangle.
    pub rectangle: bool,
}

/// What can be asked of a row.
#[derive(Clone, Copy, Debug, PartialEq, Eq, Structural)]
pub enum RowData {
    /// Whether the row is soft-wrapped.
    Wrap,
    /// Whether the row continues a soft-wrapped row.
    WrapContinuation,
    /// Whether any cell has a grapheme cluster.
    Grapheme,
    /// Whether any cell has styling.
    Styled,
    /// Whether any cell has a hyperlink.
    Hyperlink,
    /// The semantic prompt state.
    SemanticPrompt,
    /// Whether the row contains a Kitty virtual placeholder.
    KittyVirtualPlaceholder,
    /// Whether the row requires a redraw.
    Dirty,
}

/// Represents a single terminal row.
///
/// The internal layout is opaque and must be queried via its methods.
#[derive(Clone, Copy, Debug, PartialEq, Eq, Structural)]
pub struct Row(pub u64);

impl Row {
    /// Whether this row is soft-wrapped.
    pub fn is_wrapped(self, query: impl FnOnce(u64, RowData) -> Reply<bool>) -> (res: Result<bool>)
        requires
            query.requires((self.0, RowData::Wrap)),
        ensures
            answered(query, self.0, RowData::Wrap, res),
    {
        get(self.0, RowData::Wrap, query)
    }

    /// Whether this row is a continuation of a soft-wrapped row.
    pub fn is_wrap_continuation(
        self,
        query: impl FnOnce(u64, RowData) -> Reply<bool>,
    ) -> (res: Result<bool>)
        requires
            query.requires((self.0, RowData::WrapContinuation)),
        ensures
            answered(query, self.0, RowData::WrapContinuation, res),
    {
        get(self.0, RowData::WrapContinuation, query)
    }

    /// Whether any cells in this row have grapheme clusters.
    pub fn has_grapheme_cluster(
        self,
        query: impl FnOnce(u64, RowData) -> Reply<bool>,
    ) -> (res: Result<bool>)
        requires
            query.requires((self.0, RowData::Grapheme)),
        ensures
            answered(query, self.0, RowData::Grapheme, res),
    {
        get(self.0, RowData::Grapheme, query)
    }

    /// Whether any cells in this row have styling (may have false positives).
    pub fn is_styled(self, query: impl FnOnce(u64, RowData) -> Reply<bool>) -> (res: Result<bool>)
        requires
            query.requires((self.0, RowData::Styled)),
        ensures
            answered(query, self.0, RowData::Styled, res),
    {
        get(self.0, RowData::Styled, query)
    }

    /// Whether any cells in this row have hyperlinks (may have false positives).
    pub fn has_hyperlink(
        self,
        query: impl FnOnce(u64, RowData) -> Reply<bool>,
    ) -> (res: Result<bool>)
        requires
            query.requires((self.0, RowData::Hyperlink)),
        ensures
            answered(query, self.0, RowData::Hyperlink, res),
    {
        get(self.0, RowData::Hyperlink, query)
    }

    /// The semantic prompt state of this row.
    pub fn semantic_prompt(
        self,
        query: impl FnOnce(u64, RowData) -> Reply<u32>,
    ) -> (res: Result<RowSemanticPrompt>)
        requires
            query.requires((self.0, RowData::SemanticPrompt)),
        ensures
            exists|reply: Reply<u32>| #[trigger]
                query.ensures((self.0, RowData::SemanticPrompt), reply) &&
                    res == match reply.outcome() {
                    Ok(value) => RowSemanticPrompt::decoded(value),
                    Err(e) => Err(e),
                },
    {
        match get(self.0, RowData::SemanticPrompt, query) {
            Ok(value) => RowSemanticPrompt::from_code(value),
            Err(e) => Err(e),
        }
    }

    /// Whether this row contains a Kitty virtual placeholder.
    pub fn has_kitty_virtual_placeholder(
        self,
        query: impl FnOnce(u64, RowData) -> Reply<bool>,
    ) -> (res: Result<bool>)
        requires
            query.requires((self.0, RowData::KittyVirtualPlaceholder)),
        ensures
            answered(query, self.0, RowData::KittyVirtualPlaceholder, res),
    {
        get(self.0, RowData::KittyVirtualPlaceholder, query)
    }

    /// Whether this row is dirty and requires a redraw.
    pub fn is_dirty(self, query: impl FnOnce(u64, RowData) -> Reply<bool>) -> (res: Result<bool>)
        requires
            query.requires((self.0, RowData::Dirty)),
        ensures
            answered(query, self.0, RowData::Dirty, res),
    {
        get(self.0, RowData::Dirty, query)
    }
}

/// What can be asked of a cell.
#[derive(Clone, Copy, Debug, PartialEq, Eq, Structural)]
pub enum CellData {
    /// The codepoint.
    Codepoint,
    /// The kind of content.
    ContentTag,
    /// The width behavior.
    Wide,
    /// Whether there is text to render.
    HasText,
    /// Whether the styling is not the default.
    HasStyling,
    /// The identifier of the style.
    StyleId,
    /// Whether there is a hyperlink.
    HasHyperlink,
    /// Whether the cell is protected.
    Protected,
    /// The semantic content type.
    SemanticContent,
    /// The palette index of the background color.
    ColorPalette,
    /// The direct background color.
    ColorRgb,
}

/// Represents a single terminal cell.
///
/// The internal layout is opaque and must be queried via its methods.
#[derive(Clone, Copy, Debug, PartialEq, Eq, Structural)]
pub struct Cell(pub u64);

impl Cell {
    /// The codepoint of the cell (0 if empty or bg-color-only).
    pub fn codepoint(self, query: impl FnOnce(u64, CellData) -> Reply<u32>) -> (res: Result<u32>)
        requires
            query.requires((self.0, CellData::Codepoint)),
        ensures
            answered(query, self.0, CellData::Codepoint, res),
    {
        get(self.0, CellData::Codepoint, query)
    }

    /// The content tag describing what kind of content is in the cell.
    pub fn content_tag(
        self,
        query: impl FnOnce(u64, CellData) -> Reply<u32>,
    ) -> (res: Result<CellContentTag>)
        requires
            query.requires((self.0, CellData::ContentTag)),
        ensures
            tag_told(query, self.0, res),
    {
        match get(self.0, CellData::ContentTag, query) {
            Ok(value) => CellContentTag::from_code(value),
            Err(e) => Err(e),
        }
    }

    /// The wide property of the cell.
    pub fn wide(self, query: impl FnOnce(u64, CellData) -> Reply<u32>) -> (res: Result<CellWide>)
        requires
            query.requires((self.0, CellData::Wide)),
        ensures
            exists|reply: Reply<u32>| #[trigger]
                query.ensures((self.0, CellData::Wide), reply) && res == match reply.outcome() {
                    Ok(value) => CellWide::decoded(value),
                    Err(e) => Err(e),
                },
    {
        match get(self.0, CellData::Wide, query) {
            Ok(value) => CellWide::from_code(value),
            Err(e) => Err(e),
        }
    }

    /// Whether the cell has text to render.
    pub fn has_text(self, query: impl FnOnce(u64, CellData) -> Reply<bool>) -> (res: Result<bool>)
        requires
            query.requires((self.0, CellData::HasText)),
        ensures
            answered(query, self.0, CellData::HasText, res),
    {
        get(self.0, CellData::HasText, query)
    }

    /// Whether the cell has non-default styling.
    pub fn has_styling(
        self,
        query: impl FnOnce(u64, CellData) -> Reply<bool>,
    ) -> (res: Result<bool>)
        requires
            query.requires((self.0, CellData::HasStyling)),
        ensures
            answered(query, self.0, CellData::HasStyling, res),
    {
        get(self.0, CellData::HasStyling, query)
    }

    /// The style ID for the cell (for use with style lookups).
    pub fn style_id(self, query: impl FnOnce(u64, CellData) -> Reply<u16>) -> (res: Result<Id>)
        requires
            query.requires((self.0, CellData::StyleId)),
        ensures
            exists|reply: Reply<u16>| #[trigger]
                query.ensures((self.0, CellData::StyleId), reply) && res == match reply.outcome() {
                    Ok(value) => Ok(Id(value)),
                    Err(e) => Err(e),
                },
    {
        match get(self.0, CellData::StyleId, query) {
            Ok(value) => Ok(Id(value)),
            Err(e) => Err(e),
        }
    }

    /// Whether the cell has a hyperlink.
    pub fn has_hyperlink(
        self,
        query: impl FnOnce(u64, CellData) -> Reply<bool>,
    ) -> (res: Result<bool>)
        requires
            query.requires((self.0, CellData::HasHyperlink)),
        ensures
            answered(query, self.0, CellData::HasHyperlink, res),
    {
        get(self.0, CellData::HasHyperlink, query)
    }

    /// Whether the cell is protected.
    pub fn is_protected(
        self,
        query: impl FnOnce(u64, CellData) -> Reply<bool>,
    ) -> (res: Result<bool>)
        requires
            query.requires((self.0, CellData::Protected)),
        ensures
            answered(query, self.0, CellData::Protected, res),
    {
        get(self.0, CellData::Protected, query)
    }

    /// The semantic content type of the cell (from OSC 133).
    pub fn semantic_content(
        self,
        query: impl FnOnce(u64, CellData) -> Reply<u32>,
    ) -> (res: Result<CellSemanticContent>)
        requires
            query.requires((self.0, CellData::SemanticContent)),
        ensures
            exists|reply: Reply<u32>| #[trigger]
                query.ensures((self.0, CellData::SemanticContent), reply) &&
                    res == match reply.outcome() {
                    Ok(value) => CellSemanticContent::decoded(value),
                    Err(e) => Err(e),
                },
    {
        match get(self.0, CellData::SemanticContent, query) {
            Ok(value) => CellSemanticContent::from_code(value),
            Err(e) => Err(e),
        }
    }

    /// The palette index for the cell's background color.
    ///
    /// Only valid when [`Cell::content_tag`] is [`CellContentTag::BgColorPalette`].
    pub fn bg_color_palette(
        self,
        query: impl FnOnce(u64, CellData) -> Reply<u8>,
    ) -> (res: Result<PaletteIndex>)
        requires
            query.requires((self.0, CellData::ColorPalette)),
        ensures
            exists|reply: Reply<u8>| #[trigger]
                query.ensures((self.0, CellData::ColorPalette), reply) &&
                    res == match reply.outcome() {
                    Ok(value) => Ok(PaletteIndex(value)),
                    Err(e) => Err(e),
                },
    {
        match get(self.0, CellData::ColorPalette, query) {
            Ok(value) => Ok(PaletteIndex(value)),
            Err(e) => Err(e),
        }
    }

    /// The RGB color value for the cell's background color.
    ///
    /// Only valid when [`Cell::content_tag`] is [`CellContentTag::BgColorRgb`].
    pub fn bg_color_rgb(
        self,
        query: impl FnOnce(u64, CellData) -> Reply<RgbColor>,
    ) -> (res: Result<RgbColor>)
        requires
            query.requires((self.0, CellData::ColorRgb)),
        ensures
            answered(query, self.0, CellData::ColorRgb, res),
    {
        get(self.0, CellData::ColorRgb, query)
    }
}

/// Row semantic prompt state.
///
/// Indicates whether any cells in a row are part of a shell prompt, as reported by OSC 133 sequences.
#[derive(Clone, Copy, Debug, PartialEq, Eq, Structural)]
pub enum RowSemanticPrompt {
    /// No prompt cells in this row.
    NoPrompt,
    /// Prompt cells exist and this is a primary prompt line.
    Prompt,
    /// Prompt cells exist and this is a continuation line.
    Continuation,
}

impl RowSemanticPrompt {
    /// The number that stands for this value in the engine's interface.
    pub open spec fn spec_code(self) -> u32 {
        match self {
            RowSemanticPrompt::NoPrompt => 0,
            RowSemanticPrompt::Prompt => 1,
            RowSemanticPrompt::Continuation => 2,
        }
    }

    /// The value that `code` stands for; a number that stands for none is an invalid value.
    pub open spec fn decoded(code: u32) -> Result<Self> {
        match code {
            0 => Ok(RowSemanticPrompt::NoPrompt),
            1 => Ok(RowSemanticPrompt::Prompt),
            2 => Ok(RowSemanticPrompt::Continuation),
            _ => Err(Error::InvalidValue),
        }
    }

    /// The number that stands for this value in the engine's interface.
    pub fn code(self) -> (res: u32)
        ensures
            res == self.spec_code(),
    {
        match self {
            RowSemanticPrompt::NoPrompt => 0,
            RowSemanticPrompt::Prompt => 1,
            RowSemanticPrompt::Continuation => 2,
        }
    }

    /// The value that `code` stands for.
    pub fn from_code(code: u32) -> (res: Result<Self>)
        ensures
            res == Self::decoded(code),
    {
        match code {
            0 => Ok(RowSemanticPrompt::NoPrompt),
            1 => Ok(RowSemanticPrompt::Prompt),
            2 => Ok(RowSemanticPrompt::Continuation),
            _ => Err(Error::InvalidValue),
        }
    }

    /// Every value has a number of its own, and a number decodes to the value that it stands for
    /// and to nothing else.
    pub proof fn codes_round_trip(self, code: u32)
        ensures
            Self::decoded(self.spec_code()) == Ok::<Self, Error>(self),
            Self::decoded(code) matches Ok(value) ==> value.spec_code() == code,
    {
    }

    /// The engine counts the values from zero on: `NoPrompt`, `Prompt`, `Continuation`. No other
    /// number stands for one.
    pub proof fn values_are_counted(self, code: u32)
        ensures
            self is NoPrompt <==> self.spec_code() == 0,
            self is Prompt <==> self.spec_code() == 1,
            self is Continuation <==> self.spec_code() == 2,
            Self::decoded(code) == Ok::<Self, Error>(self) <==> code == self.spec_code(),
            Self::decoded(code) is Ok <==> code < 3,
            Self::decoded(code) is Err ==> Self::decoded(code) == Err::<Self, Error>(
                Error::InvalidValue,
            ),
    {
    }
}

/// Cell content tag.
///
/// Describes what kind of content a cell holds.
#[derive(Clone, Copy, Debug, PartialEq, Eq, Structural)]
pub enum CellContentTag {
    /// A single codepoint (may be zero for empty).
    Codepoint,
    /// A codepoint that is part of a multi-codepoint grapheme cluster.
    CodepointGrapheme,
    /// No text; background color from palette.
    BgColorPalette,
    /// No text; background color as RGB.
    BgColorRgb,
}

impl CellContentTag {
    /// The number that stands for this value in the engine's interface.
    pub open spec fn spec_code(self) -> u32 {
        match self {
            CellContentTag::Codepoint => 0,
            CellContentTag::CodepointGrapheme => 1,
            CellContentTag::BgColorPalette => 2,
            CellContentTag::BgColorRgb => 3,
        }
    }

    /// The value that `code` stands for; a number that stands for none is an invalid value.
    pub open spec fn decoded(code: u32) -> Result<Self> {
        match code {
            0 => Ok(CellContentTag::Codepoint),
            1 => Ok(CellContentTag::CodepointGrapheme),
            2 => Ok(CellContentTag::BgColorPalette),
            3 => Ok(CellContentTag::BgColorRgb),
            _ => Err(Error::InvalidValue),
        }
    }

    /// The number that stands for this value in the engine's interface.
    pub fn code(self) -> (res: u32)
        ensures
            res == self.spec_code(),
    {
        match self {
            CellContentTag::Codepoint => 0,
            CellContentTag::CodepointGrapheme => 1,
            CellContentTag::BgColorPalette => 2,
            CellContentTag::BgColorRgb => 3,
        }
    }

    /// The value that `code` stands for.
    pub fn from_code(code: u32) -> (res: Result<Self>)
        ensures
            res == Self::decoded(code),
    {
        match code {
            0 => Ok(CellContentTag::Codepoint),
            1 => Ok(CellContentTag::CodepointGrapheme),
            2 => Ok(CellContentTag::BgColorPalette),
            3 => Ok(CellContentTag::BgColorRgb),
            _ => Err(Error::InvalidValue),
        }
    }

    /// Every value has a number of its own, and a number decodes to the value that it stands for
    /// and to nothing else.
    pub proof fn codes_round_trip(self, code: u32)
        ensures
            Self::decoded(self.spec_code()) == Ok::<Self, Error>(self),
            Self::decoded(code) matches Ok(value) ==> value.spec_code() == code,
    {
    }

    /// The engine counts the values from zero on: `Codepoint`, `CodepointGrapheme`,
    /// `BgColorPalette`, `BgColorRgb`. No other number stands for one.
    pub proof fn values_are_counted(self, code: u32)
        ensures
            self is Codepoint <==> self.spec_code() == 0,
            self is CodepointGrapheme <==> self.spec_code() == 1,
            self is BgColorPalette <==> self.spec_code() == 2,
            self is BgColorRgb <==> self.spec_code() == 3,
            Self::decoded(code) == Ok::<Self, Error>(self) <==> code == self.spec_code(),
            Self::decoded(code) is Ok <==> code < 4,
            Self::decoded(code) is Err ==> Self::decoded(code) == Err::<Self, Error>(
                Error::InvalidValue,
            ),
    {
    }
}

/// Cell wide property.
///
/// Describes the width behavior of a cell.
#[derive(Clone, Copy, Debug, PartialEq, Eq, Structural)]
pub enum CellWide {
    /// Not a wide character, cell width 1.
    Narrow,
    /// Wide character, cell width 2.
    Wide,
    /// Spacer after wide character. Do not render.
    SpacerTail,
    /// Spacer at end of soft-wrapped line for a wide character.
    SpacerHead,
}

impl CellWide {
    /// The number that stands for this value in the engine's interface.
    pub open spec fn spec_code(self) -> u32 {
        match self {
            CellWide::Narrow => 0,
            CellWide::Wide => 1,
            CellWide::SpacerTail => 2,
            CellWide::SpacerHead => 3,
        }
    }

    /// The value that `code` stands for; a number that stands for none is an invalid value.
    pub open spec fn decoded(code: u32) -> Result<Self> {
        match code {
            0 => Ok(CellWide::Narrow),
            1 => Ok(CellWide::Wide),
            2 => Ok(CellWide::SpacerTail),
            3 => Ok(CellWide::SpacerHead),
            _ => Err(Error::InvalidValue),
        }
    }

    /// The number that stands for this value in the engine's interface.
    pub fn code(self) -> (res: u32)
        ensures
            res == self.spec_code(),
    {
        match self {
            CellWide::Narrow => 0,
            CellWide::Wide => 1,
            CellWide::SpacerTail => 2,
            CellWide::SpacerHead => 3,
        }
    }

    /// The value that `code` stands for.
    pub fn from_code(code: u32) -> (res: Result<Self>)
        ensures
            res == Self::decoded(code),
    {
        match code {
            0 => Ok(CellWide::Narrow),
            1 => Ok(CellWide::Wide),
            2 => Ok(CellWide::SpacerTail),
            3 => Ok(CellWide::SpacerHead),
            _ => Err(Error::InvalidValue),
        }
    }

    /// Every value has a number of its own, and a number decodes to the value that it stands for
    /// and to nothing else.
    pub proof fn codes_round_trip(self, code: u32)
        ensures
            Self::decoded(self.spec_code()) == Ok::<Self, Error>(self),
            Self::decoded(code) matches Ok(value) ==> value.spec_code() == code,
    {
    }

    /// The engine counts the values from zero on: `Narrow`, `Wide`, `SpacerTail`, `SpacerHead`. No
    /// other number stands for one.
    pub proof fn values_are_counted(self, code: u32)
        ensures
            self is Narrow <==> self.spec_code() == 0,
            self is Wide <==> self.spec_code() == 1,
            self is SpacerTail <==> self.spec_code() == 2,
            self is SpacerHead <==> self.spec_code() == 3,
            Self::decoded(code) == Ok::<Self, Error>(self) <==> code == self.spec_code(),
            Self::decoded(code) is Ok <==> code < 4,
            Self::decoded(code) is Err ==> Self::decoded(code) == Err::<Self, Error>(
                Error::InvalidValue,
            ),
    {
    }
}

/// Semantic content type of a cell.
///
/// Set by semantic prompt sequences (OSC 133) to distinguish between command output, user input,
/// and shell prompt text.
#[derive(Clone, Copy, Debug, PartialEq, Eq, Structural)]
pub enum CellSemanticContent {
    /// Regular output content, such as command output.
    Output,
    /// Content that is part of user input.
    Input,
    /// Content that is part of a shell prompt.
    Prompt,
}

impl CellSemanticContent {
    /// The number that stands for this value in the engine's interface.
    pub open spec fn spec_code(self) -> u32 {
        match self {
            CellSemanticContent::Output => 0,
            CellSemanticContent::Input => 1,
            CellSemanticContent::Prompt => 2,
        }
    }

    /// The value that `code` stands for; a number that stands for none is an invalid value.
    pub open spec fn decoded(code: u32) -> Result<Self> {
        match code {
            0 => Ok(CellSemanticContent::Output),
            1 => Ok(CellSemanticContent::Input),
            2 => Ok(CellSemanticContent::Prompt),
            _ => Err(Error::InvalidValue),
        }
    }

    /// The number that stands for this value in the engine's interface.
    pub fn code(self) -> (res: u32)
        ensures
            res == self.spec_code(),
    {
        match self {
            CellSemanticContent::Output => 0,
            CellSemanticContent::Input => 1,
            CellSemanticContent::Prompt => 2,
        }
    }

    /// The value that `code` stands for.
    pub fn from_code(code: u32) -> (res: Result<Self>)
        ensures
            res == Self::decoded(code),
    {
        match code {
            0 => Ok(CellSemanticContent::Output),
            1 => Ok(CellSemanticContent::Input),
            2 => Ok(CellSemanticContent::Prompt),
            _ => Err(Error::InvalidValue),
        }
    }

    /// Every value has a number of its own, and a number decodes to the value that it stands for
    /// and to nothing else.
    pub proof fn codes_round_trip(self, code: u32)
        ensures
            Self::decoded(self.spec_code()) == Ok::<Self, Error>(self),
            Self::decoded(code) matches Ok(value) ==> value.spec_code() == code,
    {
    }

    /// The engine counts the values from zero on: `Output`, `Input`, `Prompt`. No other number
    /// stands for one.
    pub proof fn values_are_counted(self, code: u32)
        ensures
            self is Output <==> self.spec_code() == 0,
            self is Input <==> self.spec_code() == 1,
            self is Prompt <==> self.spec_code() == 2,
            Self::decoded(code) == Ok::<Self, Error>(self) <==> code == self.spec_code(),
            Self::decoded(code) is Ok <==> code < 3,
            Self::decoded(code) is Err ==> Self::decoded(code) == Err::<Self, Error>(
                Error::InvalidValue,
            ),
    {
    }
}

//---------------------------------------
// What the answers say together
//---------------------------------------
/// `res` is what some answer to the question for the content tag of `cell` comes to.
pub open spec fn tag_told<F: FnOnce(u64, CellData) -> Reply<u32>>(
    query: F,
    cell: u64,
    res: Result<CellContentTag>,
) -> bool {
    exists|reply: Reply<u32>| #[trigger]
        query.ensures((cell, CellData::ContentTag), reply) && res == match reply.outcome() {
            Ok(value) => CellContentTag::decoded(value),
            Err(e) => Err(e),
        }
}

/// `res` is what some answer to the question for the cell at `grid` comes to.
pub open spec fn cell_told<F: FnOnce(GridRef) -> Reply<u64>>(
    query: F,
    grid: GridRef,
    res: Result<Cell>,
) -> bool {
    exists|reply: Reply<u64>| #[trigger]
        query.ensures((grid,), reply) && res == match reply.outcome() {
            Ok(value) => Ok(Cell(value)),
            Err(e) => Err(e),
        }
}

/// What a cell holds.
pub ghost enum CellContent {
    /// Text: a codepoint, which may be zero for a cell that is empty, and whether it is the first of
    /// a grapheme cluster.
    Text { codepoint: u32, grapheme: bool },
    /// No text, but a background color from the palette.
    BgPalette(PaletteIndex),
    /// No text, but a direct background color.
    BgRgb(RgbColor),
}

impl CellContent {
    /// The content of a cell that nothing was written to.
    pub open spec fn blank() -> Self {
        CellContent::Text { codepoint: 0, grapheme: false }
    }

    /// The tag of the content.
    pub open spec fn tag(self) -> CellContentTag {
        match self {
            CellContent::Text { grapheme: false, .. } => CellContentTag::Codepoint,
            CellContent::Text { grapheme: true, .. } => CellContentTag::CodepointGrapheme,
            CellContent::BgPalette(_) => CellContentTag::BgColorPalette,
            CellContent::BgRgb(_) => CellContentTag::BgColorRgb,
        }
    }

    /// The codepoint, which is zero if there is none.
    pub open spec fn codepoint(self) -> u32 {
        match self {
            CellContent::Text { codepoint, .. } => codepoint,
            _ => 0,
        }
    }

    /// Whether there is text to render.
    pub open spec fn has_text(self) -> bool {
        self.codepoint() != 0
    }
}

/// `query` answers with the codepoints of the cells, whose contents are as `content` says.
pub open spec fn tells_codepoints<F: FnOnce(u64, CellData) -> Reply<u32>>(
    query: F,
    content: spec_fn(u64) -> CellContent,
) -> bool {
    forall|cell: u64, reply: Reply<u32>| #[trigger]
        query.ensures((cell, CellData::Codepoint), reply) ==> reply.outcome() == Ok::<u32, Error>(
            content(cell).codepoint(),
        )
}

/// `query` answers with the content tags of the cells.
pub open spec fn tells_tags<F: FnOnce(u64, CellData) -> Reply<u32>>(
    query: F,
    content: spec_fn(u64) -> CellContent,
) -> bool {
    forall|cell: u64, reply: Reply<u32>| #[trigger]
        query.ensures((cell, CellData::ContentTag), reply) ==> reply.outcome() == Ok::<u32, Error>(
            content(cell).tag().spec_code(),
        )
}

/// `query` answers with whether the cells have text.
pub open spec fn tells_text<F: FnOnce(u64, CellData) -> Reply<bool>>(
    query: F,
    content: spec_fn(u64) -> CellContent,
) -> bool {
    forall|cell: u64, reply: Reply<bool>| #[trigger]
        query.ensures((cell, CellData::HasText), reply) ==> reply.outcome() == Ok::<bool, Error>(
            content(cell).has_text(),
        )
}

/// `query` answers with whether the cells have styling, which `styled` says.
pub open spec fn tells_styling<F: FnOnce(u64, CellData) -> Reply<bool>>(
    query: F,
    styled: spec_fn(u64) -> bool,
) -> bool {
    forall|cell: u64, reply: Reply<bool>| #[trigger]
        query.ensures((cell, CellData::HasStyling), reply) ==> reply.outcome() == Ok::<
            bool,
            Error,
        >(styled(cell))
}

/// `query` answers with whether the rows, whose cells are as `cells` says, have grapheme clusters.
pub open spec fn tells_graphemes<F: FnOnce(u64, RowData) -> Reply<bool>>(
    query: F,
    cells: spec_fn(u64) -> Seq<u64>,
    content: spec_fn(u64) -> CellContent,
) -> bool {
    forall|row: u64, reply: Reply<bool>| #[trigger]
        query.ensures((row, RowData::Grapheme), reply) ==> reply.outcome() == Ok::<bool, Error>(
            exists|i: int|
                0 <= i < cells(row).len() && content(#[trigger] cells(row)[i]).tag()
                    == CellContentTag::CodepointGrapheme,
        )
}

/// `query` answers with whether the rows may have styled cells: never with no for one that does.
pub open spec fn tells_styled<F: FnOnce(u64, RowData) -> Reply<bool>>(
    query: F,
    cells: spec_fn(u64) -> Seq<u64>,
    styled: spec_fn(u64) -> bool,
) -> bool {
    forall|row: u64, reply: Reply<bool>| #[trigger]
        query.ensures((row, RowData::Styled), reply) ==> {
            &&& reply.outcome() is Ok
            &&& forall|i: int|
                0 <= i < cells(row).len() && styled(#[trigger] cells(row)[i]) ==> reply.value
        }
}

/// A cell that holds only a background color has no codepoint, and neither has one that nothing was
/// written to: the bits of the color never come out as one.
pub proof fn a_background_is_no_codepoint<
    F: FnOnce(u64, CellData) -> Reply<u32>,
    G: FnOnce(u64, CellData) -> Reply<u32>,
>(
    content: spec_fn(u64) -> CellContent,
    ask_codepoint: F,
    ask_tag: G,
    cell: Cell,
    tag: Result<CellContentTag>,
    res: Result<u32>,
)
    requires
        tells_codepoints(ask_codepoint, content),
        tells_tags(ask_tag, content),
        tag_told(ask_tag, cell.0, tag),
        tag == Ok::<CellContentTag, Error>(CellContentTag::BgColorPalette) || tag == Ok::<
            CellContentTag,
            Error,
        >(CellContentTag::BgColorRgb) || content(cell.0) == CellContent::blank(),
        answered(ask_codepoint, cell.0, CellData::Codepoint, res),
    ensures
        res == Ok::<u32, Error>(0),
{
}

/// A cell has text if and only if it has a codepoint and its content is text: one that holds only a
/// background color never has.
pub proof fn text_is_a_codepoint<
    F: FnOnce(u64, CellData) -> Reply<u32>,
    G: FnOnce(u64, CellData) -> Reply<u32>,
    T: FnOnce(u64, CellData) -> Reply<bool>,
>(
    content: spec_fn(u64) -> CellContent,
    ask_codepoint: F,
    ask_tag: G,
    ask_text: T,
    cell: Cell,
    codepoint: u32,
    tag: CellContentTag,
    res: Result<bool>,
)
    requires
        tells_codepoints(ask_codepoint, content),
        tells_tags(ask_tag, content),
        tells_text(ask_text, content),
        answered(ask_codepoint, cell.0, CellData::Codepoint, Ok(codepoint)),
        tag_told(ask_tag, cell.0, Ok(tag)),
        answered(ask_text, cell.0, CellData::HasText, res),
    ensures
        res == Ok::<bool, Error>(
            codepoint != 0 && (tag == CellContentTag::Codepoint || tag
                == CellContentTag::CodepointGrapheme),
        ),
{
}

/// A row has grapheme clusters if and only if the content of one of its cells is a part of one.
pub proof fn a_row_tells_of_grapheme_clusters<
    R: FnOnce(u64, RowData) -> Reply<bool>,
    G: FnOnce(u64, CellData) -> Reply<u32>,
>(
    cells: spec_fn(u64) -> Seq<u64>,
    content: spec_fn(u64) -> CellContent,
    ask_row: R,
    ask_tag: G,
    row: Row,
    tags: Seq<Result<CellContentTag>>,
    res: Result<bool>,
)
    requires
        tells_graphemes(ask_row, cells, content),
        tells_tags(ask_tag, content),
        tags.len() == cells(row.0).len(),
        forall|i: int|
            0 <= i < tags.len() ==> tag_told(ask_tag, cells(row.0)[i], #[trigger] tags[i]),
        answered(ask_row, row.0, RowData::Grapheme, res),
    ensures
        res is Ok,
        res == Ok::<bool, Error>(true) <==> exists|i: int|
            0 <= i < tags.len() && #[trigger] tags[i] == Ok::<CellContentTag, Error>(
                CellContentTag::CodepointGrapheme,
            ),
{
    assert forall|i: int| 0 <= i < tags.len() implies #[trigger] tags[i] == Ok::<
        CellContentTag,
        Error,
    >(content(cells(row.0)[i]).tag()) by {
        assert(tag_told(ask_tag, cells(row.0)[i], tags[i]));
    }
    if exists|i: int|
        0 <= i < cells(row.0).len() && content(#[trigger] cells(row.0)[i]).tag()
            == CellContentTag::CodepointGrapheme {
        let i = choose|i: int|
            0 <= i < cells(row.0).len() && content(#[trigger] cells(row.0)[i]).tag()
                == CellContentTag::CodepointGrapheme;
        assert(tags[i] == Ok::<CellContentTag, Error>(CellContentTag::CodepointGrapheme));
    }
}

/// A row that has a styled cell says so: there may be false positives, but no false negatives.
pub proof fn a_row_tells_of_styled_cells<
    R: FnOnce(u64, RowData) -> Reply<bool>,
    G: FnOnce(u64, CellData) -> Reply<bool>,
>(
    cells: spec_fn(u64) -> Seq<u64>,
    styled: spec_fn(u64) -> bool,
    ask_row: R,
    ask_styling: G,
    row: Row,
    styles: Seq<Result<bool>>,
    res: Result<bool>,
)
    requires
        tells_styled(ask_row, cells, styled),
        tells_styling(ask_styling, styled),
        styles.len() == cells(row.0).len(),
        forall|i: int|
            0 <= i < styles.len() ==> answered(
                ask_styling,
                cells(row.0)[i],
                CellData::HasStyling,
                #[trigger] styles[i],
            ),
        answered(ask_row, row.0, RowData::Styled, res),
    ensures
        res is Ok,
        (exists|i: int| 0 <= i < styles.len() && #[trigger] styles[i] == Ok::<bool, Error>(true))
            ==> res == Ok::<bool, Error>(true),
        res == Ok::<bool, Error>(false) ==> forall|i: int|
            0 <= i < styles.len() ==> #[trigger] styles[i] == Ok::<bool, Error>(false),
{
    assert forall|i: int| 0 <= i < styles.len() implies #[trigger] styles[i] == Ok::<bool, Error>(
        styled(cells(row.0)[i]),
    ) by {
        assert(answered(ask_styling, cells(row.0)[i], CellData::HasStyling, styles[i]));
    }
}

} // verus!
