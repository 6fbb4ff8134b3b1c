//! Types and functions around terminal state management.
use crate::error::{from_result, outcome, Error, Result};
use crate::key::KittyKeyFlags;
use crate::memory::{Allocator, NewReply, Object, DEFAULT_ALLOCATOR};
use crate::reply::{
    accepted, answered, answered_optional, get, get_optional, put, Reply,
};
use crate::screen::{cell_told, Cell, CellContent, GridRef};
use crate::style::{RawStyle, RgbColor, Style};
use crate::text::string_from_utf8;
use vstd::prelude::*;

verus! {

/// Complete terminal emulator state and rendering.
///
/// A terminal instance manages the full emulator state including the screen, scrollback, cursor,
/// styles, modes, and VT stream processing.
///
/// # Effects
///
/// By default, [`Terminal::vt_write`] only processes sequences that directly affect terminal state
/// and ignores sequences that have side effects or require responses, such as bell characters,
/// title changes and device attributes queries. To handle these, register handlers with the
/// `Terminal::on_*` functions. The terminal keeps the handlers, of type `H`, and the engine calls
/// them during [`Terminal::vt_write`].
#[derive(Debug)]
pub struct Terminal<H = ()> {
    inner: Object,
    handlers: Handlers<H>,
}

/// Terminal initialization options.
#[derive(Clone, Copy, Debug, PartialEq, Eq, Structural)]
pub struct Options {
    /// Terminal width in cells. Must be greater than zero.
    pub cols: u16,
    /// Terminal height in cells. Must be greater than zero.
    pub rows: u16,
    /// Maximum number of lines to keep in scrollback history.
    pub max_scrollback: usize,
}

/// What can be asked of a terminal.
#[derive(Clone, Copy, Debug, PartialEq, Eq, Structural)]
pub enum TerminalData {
    /// The width in cells.
    Cols,
    /// The height in cells.
    Rows,
    /// The column of the cursor.
    CursorX,
    /// The row of the cursor.
    CursorY,
    /// Whether the next print will soft-wrap.
    CursorPendingWrap,
    /// The screen that is active.
    ActiveScreen,
    /// Whether the cursor is visible.
    CursorVisible,
    /// The Kitty keyboard protocol flags.
    KittyKeyboardFlags,
    /// The state of the scrollbar.
    Scrollbar,
    /// The style of the cursor.
    CursorStyle,
    /// Whether a mouse tracking mode is active.
    MouseTracking,
    /// The title.
    Title,
    /// The working directory.
    Pwd,
    /// The number of rows including scrollback.
    TotalRows,
    /// The number of scrollback rows.
    ScrollbackRows,
    /// The effective foreground color.
    ColorForeground,
    /// The effective background color.
    ColorBackground,
    /// The effective cursor color.
    ColorCursor,
    /// The current palette.
    ColorPalette,
    /// The default foreground color.
    ColorForegroundDefault,
    /// The default background color.
    ColorBackgroundDefault,
    /// The default cursor color.
    ColorCursorDefault,
    /// The default palette.
    ColorPaletteDefault,
    /// The storage limit for Kitty images.
    KittyImageStorageLimit,
    /// Whether Kitty images may come from files.
    KittyImageMediumFile,
    /// Whether Kitty images may come from temporary files.
    KittyImageMediumTempFile,
    /// Whether Kitty images may come from shared memory.
    KittyImageMediumSharedMem,
    /// The Kitty graphics image storage.
    KittyGraphics,
}

/// What can be set on a terminal.
#[derive(Clone, Copy, Debug, PartialEq, Eq, Structural)]
pub enum TerminalOption {
    /// What the engine hands to every handler.
    Userdata,
    /// The handler of data to write to the pty.
    WritePty,
    /// The handler of the bell.
    Bell,
    /// The handler of an ENQ character.
    Enquiry,
    /// The handler of an XTVERSION query.
    Xtversion,
    /// The handler of a title change.
    TitleChanged,
    /// The handler of a size query.
    Size,
    /// The handler of a color scheme query.
    ColorScheme,
    /// The handler of a device attributes query.
    DeviceAttributes,
    /// The default foreground color.
    ColorForeground,
    /// The default background color.
    ColorBackground,
    /// The default cursor color.
    ColorCursor,
    /// The default palette.
    ColorPalette,
    /// The storage limit for Kitty images.
    KittyImageStorageLimit,
    /// Whether Kitty images may come from files.
    KittyImageMediumFile,
    /// Whether Kitty images may come from temporary files.
    KittyImageMediumTempFile,
    /// Whether Kitty images may come from shared memory.
    KittyImageMediumSharedMem,
    /// The most bytes to buffer for Kitty graphics data.
    ApcMaxBytesKitty,
}

/// The state of the scrollbar.
#[derive(Clone, Copy, Debug, PartialEq, Eq, Structural)]
pub struct Scrollbar {
    /// The total number of rows.
    pub total: u64,
    /// The first row that is visible.
    pub offset: u64,
    /// The number of rows that are visible.
    pub len: u64,
}

/// `res` holds the text with the bytes of `outcome`, or says why there is none: the query failed,
/// or the bytes are not UTF-8.
pub open spec fn text_result(outcome: Result<Vec<u8>>, res: Result<String>) -> bool {
    match outcome {
        Ok(bytes) => if vstd::utf8::valid_utf8(bytes@) {
            res matches Ok(text) && text@ == vstd::utf8::decode_utf8(bytes@)
        } else {
            res == Err::<String, Error>(Error::InvalidValue)
        },
        Err(e) => res == Err::<String, Error>(e),
    }
}

impl<H> Terminal<H> {
    /// The address of the terminal.
    pub closed spec fn addr(&self) -> usize {
        self.inner.addr()
    }

    /// The handlers that are registered.
    pub closed spec fn handlers(&self) -> Handlers<H> {
        self.handlers
    }

    /// `res` holds the terminal that `create(alloc, opts)` made, without any handlers, or says why
    /// it made none.
    pub open spec fn made<F: FnOnce(usize, Options) -> NewReply>(
        create: F,
        alloc: usize,
        opts: Options,
        res: Result<Self>,
    ) -> bool {
        exists|reply: NewReply| #[trigger]
            create.ensures((alloc, opts), reply) && match res {
                Ok(terminal) => reply.outcome() == Ok::<usize, Error>(terminal.addr())
                    && terminal.handlers().is_empty(),
                Err(e) => reply.outcome() == Err::<usize, Error>(e),
            }
    }

    /// Create a new terminal instance.
    pub fn new(
        opts: Options,
        create: impl FnOnce(usize, Options) -> NewReply,
    ) -> (res: Result<Self>)
        requires
            create.requires((DEFAULT_ALLOCATOR, opts)),
        ensures
            Self::made(create, DEFAULT_ALLOCATOR, opts, res),
    {
        Self::new_inner(DEFAULT_ALLOCATOR, opts, create)
    }

    /// Create a new terminal instance with a custom allocator.
    pub fn new_with_alloc(
        alloc: &Allocator,
        opts: Options,
        create: impl FnOnce(usize, Options) -> NewReply,
    ) -> (res: Result<Self>)
        requires
            create.requires((alloc.addr(), opts)),
        ensures
            Self::made(create, alloc.addr(), opts, res),
    {
        Self::new_inner(alloc.to_raw(), opts, create)
    }

    fn new_inner<F: FnOnce(usize, Options) -> NewReply>(
        alloc: usize,
        opts: Options,
        create: F,
    ) -> (res: Result<Self>)
        requires
            create.requires((alloc, opts)),
        ensures
            Self::made(create, alloc, opts, res),
    {
        match create(alloc, opts).into_object() {
            Ok(inner) => Ok(Terminal { inner, handlers: Handlers::new() }),
            Err(e) => Err(e),
        }
    }

    /// The address of the terminal.
    pub fn as_raw(&self) -> (res: usize)
        ensures
            res == self.addr(),
    {
        self.inner.as_raw()
    }

    /// Write VT-encoded data to the terminal for processing.
    ///
    /// Feeds raw bytes through the terminal's VT stream parser. This never fails: erroneous input
    /// is assumed to be untrusted, and the engine keeps the terminal state consistent.
    pub fn vt_write(&mut self, data: &[u8], write: impl FnOnce(usize, &[u8]))
        requires
            write.requires((old(self).addr(), data)),
        ensures
            *final(self) == *old(self),
            write.ensures((old(self).addr(), data), ()),
    {
        write(self.as_raw(), data)
    }

    /// Resize the terminal to the given dimensions, and set the size of a cell in pixels.
    ///
    /// The primary screen will reflow content if wraparound mode is enabled; the alternate screen
    /// does not reflow.
    pub fn resize(
        &mut self,
        cols: u16,
        rows: u16,
        cell_width_px: u32,
        cell_height_px: u32,
        change: impl FnOnce(usize, u16, u16, u32, u32) -> i32,
    ) -> (res: Result<()>)
        requires
            change.requires((old(self).addr(), cols, rows, cell_width_px, cell_height_px)),
        ensures
            *final(self) == *old(self),
            exists|code: i32| #[trigger]
                change.ensures((old(self).addr(), cols, rows, cell_width_px, cell_height_px), code)
                    && res == outcome(code),
    {
        from_result(change(self.as_raw(), cols, rows, cell_width_px, cell_height_px))
    }

    /// Perform a full reset of the terminal (RIS).
    ///
    /// The engine resets all terminal state back to its initial configuration; the dimensions are
    /// preserved.
    pub fn reset<S>(&mut self, engine: &mut S, reset: impl FnOnce(&S, usize) -> S)
        requires
            reset.requires((&*old(engine), old(self).addr())),
        ensures
            *final(self) == *old(self),
            reset.ensures((&*old(engine), old(self).addr()), *final(engine)),
    {
        *engine = reset(&*engine, self.as_raw());
    }

    /// Scroll the terminal viewport.
    pub fn scroll_viewport(
        &mut self,
        scroll: ScrollViewport,
        change: impl FnOnce(usize, RawScrollViewport),
    )
        requires
            change.requires((old(self).addr(), scroll.raw())),
        ensures
            *final(self) == *old(self),
            change.ensures((old(self).addr(), scroll.raw()), ()),
    {
        change(self.as_raw(), scroll.to_raw())
    }

    /// Resolve a point in the terminal grid to a grid reference.
    ///
    /// Lookups in the active region and viewport are fast. Lookups in the screen and history may
    /// be expensive for large scrollback buffers.
    pub fn grid_ref(
        &self,
        point: Point,
        resolve: impl FnOnce(usize, RawPoint) -> Reply<GridRef>,
    ) -> (res: Result<GridRef>)
        requires
            resolve.requires((self.addr(), point.raw())),
        ensures
            resolved(resolve, self.addr(), point, res),
    {
        resolve(self.as_raw(), point.to_raw()).into_result()
    }

    /// Get the current value of a terminal mode.
    pub fn mode(
        &self,
        mode: Mode,
        query: impl FnOnce(usize, u16) -> Reply<bool>,
    ) -> (res: Result<bool>)
        requires
            query.requires((self.addr(), mode.0)),
        ensures
            answered(query, self.addr(), mode.0, res),
    {
        get(self.as_raw(), mode.0, query)
    }

    /// Set the value of a terminal mode.
    pub fn set_mode(
        &mut self,
        mode: Mode,
        value: bool,
        change: impl FnOnce(usize, u16, bool) -> i32,
    ) -> (res: Result<()>)
        requires
            change.requires((old(self).addr(), mode.0, value)),
        ensures
            *final(self) == *old(self),
            accepted(change, old(self).addr(), mode.0, value, res),
    {
        put(self.as_raw(), mode.0, value, change)
    }

    /// Get the terminal width in cells.
    pub fn cols(&self, query: impl FnOnce(usize, TerminalData) -> Reply<u16>) -> (res: Result<u16>)
        requires
            query.requires((self.addr(), TerminalData::Cols)),
        ensures
            answered(query, self.addr(), TerminalData::Cols, res),
    {
        get(self.as_raw(), TerminalData::Cols, query)
    }

    /// Get the terminal height in cells.
    pub fn rows(&self, query: impl FnOnce(usize, TerminalData) -> Reply<u16>) -> (res: Result<u16>)
        requires
            query.requires((self.addr(), TerminalData::Rows)),
        ensures
            answered(query, self.addr(), TerminalData::Rows, res),
    {
        get(self.as_raw(), TerminalData::Rows, query)
    }

    /// Get the cursor column position (0-indexed).
    pub fn cursor_x(
        &self,
        query: impl FnOnce(usize, TerminalData) -> Reply<u16>,
    ) -> (res: Result<u16>)
        requires
            query.requires((self.addr(), TerminalData::CursorX)),
        ensures
            answered(query, self.addr(), TerminalData::CursorX, res),
    {
        get(self.as_raw(), TerminalData::CursorX, query)
    }

    /// Get the cursor row position within the active area (0-indexed).
    pub fn cursor_y(
        &self,
        query: impl FnOnce(usize, TerminalData) -> Reply<u16>,
    ) -> (res: Result<u16>)
        requires
            query.requires((self.addr(), TerminalData::CursorY)),
        ensures
            answered(query, self.addr(), TerminalData::CursorY, res),
    {
        get(self.as_raw(), TerminalData::CursorY, query)
    }

    /// Get whether the cursor has a pending wrap (next print will soft-wrap).
    pub fn is_cursor_pending_wrap(
        &self,
        query: impl FnOnce(usize, TerminalData) -> Reply<bool>,
    ) -> (res: Result<bool>)
        requires
            query.requires((self.addr(), TerminalData::CursorPendingWrap)),
        ensures
            answered(query, self.addr(), TerminalData::CursorPendingWrap, res),
    {
        get(self.as_raw(), TerminalData::CursorPendingWrap, query)
    }

    /// Get whether the cursor is visible (DEC mode 25).
    pub fn is_cursor_visible(
        &self,
        query: impl FnOnce(usize, TerminalData) -> Reply<bool>,
    ) -> (res: Result<bool>)
        requires
            query.requires((self.addr(), TerminalData::CursorVisible)),
        ensures
            answered(query, self.addr(), TerminalData::CursorVisible, res),
    {
        get(self.as_raw(), TerminalData::CursorVisible, query)
    }

    /// Get the current SGR style of the cursor.
    ///
    /// This is the style that will be applied to newly printed characters.
    pub fn cursor_style(
        &self,
        query: impl FnOnce(usize, TerminalData) -> Reply<RawStyle>,
    ) -> (res: Result<Style>)
        requires
            query.requires((self.addr(), TerminalData::CursorStyle)),
        ensures
            exists|reply: Reply<RawStyle>| #[trigger]
                query.ensures((self.addr(), TerminalData::CursorStyle), reply) &&
                    res == match reply.outcome() {
                    Ok(value) => Style::decoded(value),
                    Err(e) => Err(e),
                },
    {
        match get(self.as_raw(), TerminalData::CursorStyle, query) {
            Ok(value) => Style::from_raw(value),
            Err(e) => Err(e),
        }
    }

    /// Get the current Kitty keyboard protocol flags.
    pub fn kitty_keyboard_flags(
        &self,
        query: impl FnOnce(usize, TerminalData) -> Reply<u8>,
    ) -> (res: Result<KittyKeyFlags>)
        requires
            query.requires((self.addr(), TerminalData::KittyKeyboardFlags)),
        ensures
            exists|reply: Reply<u8>| #[trigger]
                query.ensures((self.addr(), TerminalData::KittyKeyboardFlags), reply) &&
                    res == match reply.outcome() {
                    Ok(value) => Ok(KittyKeyFlags { bits: value }),
                    Err(e) => Err(e),
                },
    {
        match get(self.as_raw(), TerminalData::KittyKeyboardFlags, query) {
            Ok(value) => Ok(KittyKeyFlags::from_bits_retain(value)),
            Err(e) => Err(e),
        }
    }

    /// Get the scrollbar state for the terminal viewport.
    ///
    /// This may be expensive to calculate depending on where the viewport is, so it should only be
    /// called as needed.
    pub fn scrollbar(
        &self,
        query: impl FnOnce(usize, TerminalData) -> Reply<Scrollbar>,
    ) -> (res: Result<Scrollbar>)
        requires
            query.requires((self.addr(), TerminalData::Scrollbar)),
        ensures
            answered(query, self.addr(), TerminalData::Scrollbar, res),
    {
        get(self.as_raw(), TerminalData::Scrollbar, query)
    }

    /// Get the number of the currently active screen.
    pub fn active_screen(
        &self,
        query: impl FnOnce(usize, TerminalData) -> Reply<u32>,
    ) -> (res: Result<u32>)
        requires
            query.requires((self.addr(), TerminalData::ActiveScreen)),
        ensures
            answered(query, self.addr(), TerminalData::ActiveScreen, res),
    {
        get(self.as_raw(), TerminalData::ActiveScreen, query)
    }

    /// Get whether any mouse tracking mode is active.
    pub fn is_mouse_tracking(
        &self,
        query: impl FnOnce(usize, TerminalData) -> Reply<bool>,
    ) -> (res: Result<bool>)
        requires
            query.requires((self.addr(), TerminalData::MouseTracking)),
        ensures
            answered(query, self.addr(), TerminalData::MouseTracking, res),
    {
        get(self.as_raw(), TerminalData::MouseTracking, query)
    }

    /// Get the terminal title as set by escape sequences (e.g. OSC 0/2).
    ///
    /// An empty string is returned when no title has been set. A title that is not UTF-8 is an
    /// invalid value.
    pub fn title(
        &self,
        query: impl FnOnce(usize, TerminalData) -> Reply<Vec<u8>>,
    ) -> (res: Result<String>)
        requires
            query.requires((self.addr(), TerminalData::Title)),
        ensures
            exists|reply: Reply<Vec<u8>>| #[trigger]
                query.ensures((self.addr(), TerminalData::Title), reply) &&
                    text_result(reply.outcome(), res),
    {
        match get(self.as_raw(), TerminalData::Title, query) {
            Ok(bytes) => match string_from_utf8(bytes) {
                Some(text) => Ok(text),
                None => Err(Error::InvalidValue),
            },
            Err(e) => Err(e),
        }
    }

    /// Get the current working directory as set by escape sequences (e.g. OSC 7).
    ///
    /// An empty string is returned when none has been set. A directory that is not UTF-8 is an
    /// invalid value.
    pub fn pwd(
        &self,
        query: impl FnOnce(usize, TerminalData) -> Reply<Vec<u8>>,
    ) -> (res: Result<String>)
        requires
            query.requires((self.addr(), TerminalData::Pwd)),
        ensures
            exists|reply: Reply<Vec<u8>>| #[trigger]
                query.ensures((self.addr(), TerminalData::Pwd), reply) &&
                    text_result(reply.outcome(), res),
    {
        match get(self.as_raw(), TerminalData::Pwd, query) {
            Ok(bytes) => match string_from_utf8(bytes) {
                Some(text) => Ok(text),
                None => Err(Error::InvalidValue),
            },
            Err(e) => Err(e),
        }
    }

    /// The total number of rows in the active screen including scrollback.
    pub fn total_rows(
        &self,
        query: impl FnOnce(usize, TerminalData) -> Reply<usize>,
    ) -> (res: Result<usize>)
        requires
            query.requires((self.addr(), TerminalData::TotalRows)),
        ensures
            answered(query, self.addr(), TerminalData::TotalRows, res),
    {
        get(self.as_raw(), TerminalData::TotalRows, query)
    }

    /// The number of scrollback rows (total rows minus viewport rows).
    pub fn scrollback_rows(
        &self,
        query: impl FnOnce(usize, TerminalData) -> Reply<usize>,
    ) -> (res: Result<usize>)
        requires
            query.requires((self.addr(), TerminalData::ScrollbackRows)),
        ensures
            answered(query, self.addr(), TerminalData::ScrollbackRows, res),
    {
        get(self.as_raw(), TerminalData::ScrollbackRows, query)
    }

    /// The effective foreground color (override or default).
    pub fn fg_color(
        &self,
        query: impl FnOnce(usize, TerminalData) -> Reply<RgbColor>,
    ) -> (res: Result<Option<RgbColor>>)
        requires
            query.requires((self.addr(), TerminalData::ColorForeground)),
        ensures
            answered_optional(query, self.addr(), TerminalData::ColorForeground, res),
    {
        get_optional(self.as_raw(), TerminalData::ColorForeground, query)
    }

    /// The default foreground color (ignoring any OSC override).
    pub fn default_fg_color(
        &self,
        query: impl FnOnce(usize, TerminalData) -> Reply<RgbColor>,
    ) -> (res: Result<Option<RgbColor>>)
        requires
            query.requires((self.addr(), TerminalData::ColorForegroundDefault)),
        ensures
            answered_optional(query, self.addr(), TerminalData::ColorForegroundDefault, res),
    {
        get_optional(self.as_raw(), TerminalData::ColorForegroundDefault, query)
    }

    /// Set the default foreground color.
    pub fn set_default_fg_color(
        &self,
        value: Option<RgbColor>,
        change: impl FnOnce(usize, TerminalOption, Option<RgbColor>) -> i32,
    ) -> (res: Result<()>)
        requires
            change.requires((self.addr(), TerminalOption::ColorForeground, value)),
        ensures
            accepted(change, self.addr(), TerminalOption::ColorForeground, value, res),
    {
        put(self.as_raw(), TerminalOption::ColorForeground, value, change)
    }

    /// The effective background color (override or default).
    pub fn bg_color(
        &self,
        query: impl FnOnce(usize, TerminalData) -> Reply<RgbColor>,
    ) -> (res: Result<Option<RgbColor>>)
        requires
            query.requires((self.addr(), TerminalData::ColorBackground)),
        ensures
            answered_optional(query, self.addr(), TerminalData::ColorBackground, res),
    {
        get_optional(self.as_raw(), TerminalData::ColorBackground, query)
    }

    /// The default background color (ignoring any OSC override).
    pub fn default_bg_color(
        &self,
        query: impl FnOnce(usize, TerminalData) -> Reply<RgbColor>,
    ) -> (res: Result<Option<RgbColor>>)
        requires
            query.requires((self.addr(), TerminalData::ColorBackgroundDefault)),
        ensures
            answered_optional(query, self.addr(), TerminalData::ColorBackgroundDefault, res),
    {
        get_optional(self.as_raw(), TerminalData::ColorBackgroundDefault, query)
    }

    /// Set the default background color.
    pub fn set_default_bg_color(
        &self,
        value: Option<RgbColor>,
        change: impl FnOnce(usize, TerminalOption, Option<RgbColor>) -> i32,
    ) -> (res: Result<()>)
        requires
            change.requires((self.addr(), TerminalOption::ColorBackground, value)),
        ensures
            accepted(change, self.addr(), TerminalOption::ColorBackground, value, res),
    {
        put(self.as_raw(), TerminalOption::ColorBackground, value, change)
    }

    /// The effective cursor color (override or default).
    pub fn cursor_color(
        &self,
        query: impl FnOnce(usize, TerminalData) -> Reply<RgbColor>,
    ) -> (res: Result<Option<RgbColor>>)
        requires
            query.requires((self.addr(), TerminalData::ColorCursor)),
        ensures
            answered_optional(query, self.addr(), TerminalData::ColorCursor, res),
    {
        get_optional(self.as_raw(), TerminalData::ColorCursor, query)
    }

    /// The default cursor color (ignoring any OSC override).
    pub fn default_cursor_color(
        &self,
        query: impl FnOnce(usize, TerminalData) -> Reply<RgbColor>,
    ) -> (res: Result<Option<RgbColor>>)
        requires
            query.requires((self.addr(), TerminalData::ColorCursorDefault)),
        ensures
            answered_optional(query, self.addr(), TerminalData::ColorCursorDefault, res),
    {
        get_optional(self.as_raw(), TerminalData::ColorCursorDefault, query)
    }

    /// Set the default cursor color.
    pub fn set_default_cursor_color(
        &self,
        value: Option<RgbColor>,
        change: impl FnOnce(usize, TerminalOption, Option<RgbColor>) -> i32,
    ) -> (res: Result<()>)
        requires
            change.requires((self.addr(), TerminalOption::ColorCursor, value)),
        ensures
            accepted(change, self.addr(), TerminalOption::ColorCursor, value, res),
    {
        put(self.as_raw(), TerminalOption::ColorCursor, value, change)
    }

    /// The current 256-color palette.
    pub fn color_palette(
        &self,
        query: impl FnOnce(usize, TerminalData) -> Reply<[RgbColor; 256]>,
    ) -> (res: Result<[RgbColor; 256]>)
        requires
            query.requires((self.addr(), TerminalData::ColorPalette)),
        ensures
            answered(query, self.addr(), TerminalData::ColorPalette, res),
    {
        get(self.as_raw(), TerminalData::ColorPalette, query)
    }

    /// The default 256-color palette (ignoring any OSC overrides).
    pub fn default_color_palette(
        &self,
        query: impl FnOnce(usize, TerminalData) -> Reply<[RgbColor; 256]>,
    ) -> (res: Result<[RgbColor; 256]>)
        requires
            query.requires((self.addr(), TerminalData::ColorPaletteDefault)),
        ensures
            answered(query, self.addr(), TerminalData::ColorPaletteDefault, res),
    {
        get(self.as_raw(), TerminalData::ColorPaletteDefault, query)
    }

    /// Set the default 256-color palette.
    pub fn set_default_color_palette(
        &self,
        value: Option<[RgbColor; 256]>,
        change: impl FnOnce(usize, TerminalOption, Option<[RgbColor; 256]>) -> i32,
    ) -> (res: Result<()>)
        requires
            change.requires((self.addr(), TerminalOption::ColorPalette, value)),
        ensures
            accepted(change, self.addr(), TerminalOption::ColorPalette, value, res),
    {
        put(self.as_raw(), TerminalOption::ColorPalette, value, change)
    }
}

//---------------------------------------
// Points
//---------------------------------------

/// A point in the terminal grid.
#[derive(Clone, Copy, Debug, PartialEq, Eq, Structural)]
pub enum Point {
    /// Active area where the cursor can move.
    Active(PointCoordinate),
    /// Visible viewport (changes when scrolled).
    Viewport(PointCoordinate),
    /// Full screen including scrollback.
    Screen(PointCoordinate),
    /// Scrollback history only (before active area).
    History(PointCoordinate),
}

/// A coordinate in the terminal grid.
#[derive(Clone, Copy, Debug, PartialEq, Eq, Structural)]
pub struct PointCoordinate {
    /// Column (0-indexed).
    pub x: u16,
    /// Row (0-indexed). May exceed page size for screen/history tags.
    pub y: u32,
}

/// A point as the engine takes it: the area that the coordinate counts in, and the coordinate.
#[derive(Clone, Copy, Debug, PartialEq, Eq, Structural)]
pub struct RawPoint {
    /// The number of the area.
    pub tag: u32,
    /// The coordinate.
    pub coordinate: PointCoordinate,
}

impl Point {
    /// The point as the engine takes it.
    pub open spec fn raw(self) -> RawPoint {
        match self {
            Point::Active(coordinate) => RawPoint { tag: 0, coordinate },
            Point::Viewport(coordinate) => RawPoint { tag: 1, coordinate },
            Point::Screen(coordinate) => RawPoint { tag: 2, coordinate },
            Point::History(coordinate) => RawPoint { tag: 3, coordinate },
        }
    }

    /// The point as the engine takes it.
    pub fn to_raw(self) -> (res: RawPoint)
        ensures
            res == self.raw(),
    {
        match self {
            Point::Active(coordinate) => RawPoint { tag: 0, coordinate },
            Point::Viewport(coordinate) => RawPoint { tag: 1, coordinate },
            Point::Screen(coordinate) => RawPoint { tag: 2, coordinate },
            Point::History(coordinate) => RawPoint { tag: 3, coordinate },
        }
    }

    /// A point is handed to the engine with its own coordinate, and the areas are counted from the
    /// active one over the viewport and the screen to the history.
    pub proof fn points_keep_their_coordinates(self, at: PointCoordinate)
        ensures
            self == Point::Active(at) <==> self.raw().tag == 0 && self.raw().coordinate == at,
            self == Point::Viewport(at) <==> self.raw().tag == 1 && self.raw().coordinate == at,
            self == Point::Screen(at) <==> self.raw().tag == 2 && self.raw().coordinate == at,
            self == Point::History(at) <==> self.raw().tag == 3 && self.raw().coordinate == at,
    {
    }

    /// Different points are handed to the engine as different ones.
    pub proof fn raw_points_differ(self, other: Self)
        ensures
            self.raw() == other.raw() <==> self == other,
    {
    }
}

/// Scroll viewport behavior.
#[derive(Clone, Copy, Debug, PartialEq, Eq, Structural)]
pub enum ScrollViewport {
    /// Scroll to the top of the scrollback.
    Top,
    /// Scroll to the bottom (active area).
    Bottom,
    /// Scroll by a delta amount (up is negative).
    Delta(isize),
}

/// A scroll request as the engine takes it: its kind, and by how much to scroll where that counts.
#[derive(Clone, Copy, Debug, PartialEq, Eq, Structural)]
pub struct RawScrollViewport {
    /// The number of the kind.
    pub tag: u32,
    /// By how much to scroll.
    pub delta: isize,
}

impl ScrollViewport {
    /// The request as the engine takes it.
    pub open spec fn raw(self) -> RawScrollViewport {
        match self {
            ScrollViewport::Top => RawScrollViewport { tag: 0, delta: 0 },
            ScrollViewport::Bottom => RawScrollViewport { tag: 1, delta: 0 },
            ScrollViewport::Delta(delta) => RawScrollViewport { tag: 2, delta },
        }
    }

    /// The request as the engine takes it.
    pub fn to_raw(self) -> (res: RawScrollViewport)
        ensures
            res == self.raw(),
    {
        match self {
            ScrollViewport::Top => RawScrollViewport { tag: 0, delta: 0 },
            ScrollViewport::Bottom => RawScrollViewport { tag: 1, delta: 0 },
            ScrollViewport::Delta(delta) => RawScrollViewport { tag: 2, delta },
        }
    }

    /// A request by an amount is handed to the engine with that amount, and one to an end of the
    /// scrollback with none.
    pub proof fn requests_keep_their_amount(self, delta: isize)
        ensures
            self == ScrollViewport::Delta(delta) <==> self.raw().tag == 2 && self.raw().delta
                == delta,
            self is Top <==> self.raw().tag == 0,
            self is Bottom <==> self.raw().tag == 1,
            self !is Delta ==> self.raw().delta == 0,
    {
    }

    /// Different requests are handed to the engine as different ones.
    pub proof fn raw_requests_differ(self, other: Self)
        ensures
            self.raw() == other.raw() <==> self == other,
    {
    }
}

//---------------------------------------
// Modes
//---------------------------------------

/// A terminal mode consisting of its value and its kind (DEC/ANSI).
#[derive(Clone, Copy, Debug, PartialEq, Eq, Hash, Structural)]
pub struct Mode(pub u16);

/// The kind of a terminal mode.
#[derive(Clone, Copy, Debug, PartialEq, Eq, Hash, Structural)]
pub enum ModeKind {
    /// DEC terminal mode.
    Dec,
    /// ANSI terminal mode.
    Ansi,
}

/// The bit that marks an ANSI mode.
pub const ANSI_BIT: u16 = 0x8000;

impl Mode {
    /// The mode with the given numeric value and kind.
    pub open spec fn of(v: u16, kind: ModeKind) -> Self {
        match kind {
            ModeKind::Ansi => Mode(v | ANSI_BIT),
            ModeKind::Dec => Mode(v),
        }
    }

    /// The numeric value of the mode.
    pub open spec fn number(self) -> u16 {
        self.0 & 0x7fff
    }

    /// Whether the mode is an ANSI mode.
    pub open spec fn is_ansi(self) -> bool {
        self.0 & ANSI_BIT > 0
    }

    /// Create a new mode from its numeric value and its kind.
    #[must_use]
    pub fn new(v: u16, kind: ModeKind) -> (res: Self)
        ensures
            res == Self::of(v, kind),
    {
        match kind {
            ModeKind::Ansi => Mode(v | ANSI_BIT),
            ModeKind::Dec => Mode(v),
        }
    }

    /// The numeric value of the mode.
    #[must_use]
    pub fn value(self) -> (res: u16)
        ensures
            res == self.number(),
    {
        self.0 & 0x7fff
    }

    /// The kind of the mode (DEC/ANSI).
    #[must_use]
    pub fn kind(self) -> (res: ModeKind)
        ensures
            res == if self.is_ansi() {
                ModeKind::Ansi
            } else {
                ModeKind::Dec
            },
    {
        if self.0 & ANSI_BIT > 0 {
            ModeKind::Ansi
        } else {
            ModeKind::Dec
        }
    }

    /// A mode that was made from a value and a kind has that value and that kind, as long as the
    /// value leaves the bit alone that marks the kind.
    pub proof fn a_new_mode_has_its_parts(v: u16, kind: ModeKind)
        requires
            v < ANSI_BIT,
        ensures
            Self::of(v, kind).number() == v,
            Self::of(v, kind).is_ansi() <==> kind is Ansi,
    {
        assert((v | 0x8000) & 0x7fff == v && (v | 0x8000) & 0x8000 > 0 && v & 0x7fff == v && v
            & 0x8000 == 0) by (bit_vector)
            requires
                v < 0x8000u16,
        ;
    }

    /// Every mode is the one made from its value and its kind.
    pub proof fn parts_make_the_mode(self)
        ensures
            Self::of(
                self.number(),
                if self.is_ansi() {
                    ModeKind::Ansi
                } else {
                    ModeKind::Dec
                },
            ) == self,
            self.number() < ANSI_BIT,
    {
        let m = self.0;
        assert(m & 0x8000 > 0 ==> (m & 0x7fff) | 0x8000 == m) by (bit_vector);
        assert(m & 0x8000 == 0 ==> m & 0x7fff == m) by (bit_vector);
        assert(m & 0x7fff < 0x8000) by (bit_vector);
    }
}

/// The modes that are known, as what [`Mode`] holds.
impl Mode {
    /// ANSI mode 2.
    pub const KAM: u16 = 0x8002;

    /// ANSI mode 4.
    pub const INSERT: u16 = 0x8004;

    /// ANSI mode 12.
    pub const SRM: u16 = 0x800c;

    /// ANSI mode 20.
    pub const LINEFEED: u16 = 0x8014;

    /// DEC mode 1.
    pub const DECCKM: u16 = 1;

    /// DEC mode 3.
    pub const _132_COLUMN: u16 = 3;

    /// DEC mode 4.
    pub const SLOW_SCROLL: u16 = 4;

    /// DEC mode 5.
    pub const REVERSE_COLORS: u16 = 5;

    /// DEC mode 6.
    pub const ORIGIN: u16 = 6;

    /// DEC mode 7.
    pub const WRAPAROUND: u16 = 7;

    /// DEC mode 8.
    pub const AUTOREPEAT: u16 = 8;

    /// DEC mode 9.
    pub const X10_MOUSE: u16 = 9;

    /// DEC mode 12.
    pub const CURSOR_BLINKING: u16 = 12;

    /// DEC mode 25.
    pub const CURSOR_VISIBLE: u16 = 25;

    /// DEC mode 40.
    pub const ENABLE_MODE3: u16 = 40;

    /// DEC mode 45.
    pub const REVERSE_WRAP: u16 = 45;

    /// DEC mode 47.
    pub const ALT_SCREEN_LEGACY: u16 = 47;

    /// DEC mode 66.
    pub const KEYPAD_KEYS: u16 = 66;

    /// DEC mode 69.
    pub const LEFT_RIGHT_MARGIN: u16 = 69;

    /// DEC mode 1000.
    pub const NORMAL_MOUSE: u16 = 1000;

    /// DEC mode 1002.
    pub const BUTTON_MOUSE: u16 = 1002;

    /// DEC mode 1003.
    pub const ANY_MOUSE: u16 = 1003;

    /// DEC mode 1004.
    pub const FOCUS_EVENT: u16 = 1004;

    /// DEC mode 1005.
    pub const UTF8_MOUSE: u16 = 1005;

    /// DEC mode 1006.
    pub const SGR_MOUSE: u16 = 1006;

    /// DEC mode 1007.
    pub const ALT_SCROLL: u16 = 1007;

    /// DEC mode 1015.
    pub const URXVT_MOUSE: u16 = 1015;

    /// DEC mode 1016.
    pub const SGR_PIXELS_MOUSE: u16 = 1016;

    /// DEC mode 1035.
    pub const NUMLOCK_KEYPAD: u16 = 1035;

    /// DEC mode 1036.
    pub const ALT_ESC_PREFIX: u16 = 1036;

    /// DEC mode 1039.
    pub const ALT_SENDS_ESC: u16 = 1039;

    /// DEC mode 1045.
    pub const REVERSE_WRAP_EXT: u16 = 1045;

    /// DEC mode 1047.
    pub const ALT_SCREEN: u16 = 1047;

    /// DEC mode 1048.
    pub const SAVE_CURSOR: u16 = 1048;

    /// DEC mode 1049.
    pub const ALT_SCREEN_SAVE: u16 = 1049;

    /// DEC mode 2004.
    pub const BRACKETED_PASTE: u16 = 2004;

    /// DEC mode 2026.
    pub const SYNC_OUTPUT: u16 = 2026;

    /// DEC mode 2027.
    pub const GRAPHEME_CLUSTER: u16 = 2027;

    /// DEC mode 2031.
    pub const COLOR_SCHEME_REPORT: u16 = 2031;

    /// DEC mode 2048.
    pub const IN_BAND_RESIZE: u16 = 2048;
}

//---------------------------------------
// Device attributes
//---------------------------------------

/// Device attributes response data for all three DA levels.
///
/// The terminal uses whichever part matches the request type (CSI c, CSI > c, or CSI = c).
#[derive(Clone, Copy, Debug)]
pub struct DeviceAttributes {
    /// Primary device attributes (DA1).
    pub primary: PrimaryDeviceAttributes,
    /// Secondary device attributes (DA2).
    pub secondary: SecondaryDeviceAttributes,
    /// Tertiary device attributes (DA3).
    pub tertiary: TertiaryDeviceAttributes,
}

/// How many features a response to a CSI c query can hold.
pub const MAX_FEATURES: usize = 64;

/// Primary device attributes (DA1) response data.
///
/// Returned as part of [`DeviceAttributes`] in response to a CSI c query.
#[derive(Clone, Copy, Debug)]
pub struct PrimaryDeviceAttributes {
    /// The conformance level.
    pub conformance_level: u16,
    /// The features, followed by zeros.
    pub features: [u16; 64],
    /// How many features there are.
    pub num_features: usize,
}

impl PrimaryDeviceAttributes {
    /// Construct primary device attributes from a conformance level and an array of device
    /// attribute features, of which there may be no more than [`MAX_FEATURES`].
    #[must_use]
    pub fn new<const N: usize>(
        conformance_level: ConformanceLevel,
        features: [DeviceAttributeFeature; N],
    ) -> (res: Self)
        requires
            N <= MAX_FEATURES,
        ensures
            res.conformance_level == conformance_level.0,
            res.num_features == N,
            forall|i: int| 0 <= i < N ==> res.features@[i] == features@[i].0,
            forall|i: int| N <= i < MAX_FEATURES ==> res.features@[i] == 0,
    {
        let mut f: [u16; 64] = [0u16; 64];
        let mut i: usize = 0;
        while i < N
            invariant
                i <= N <= MAX_FEATURES,
                forall|j: int| 0 <= j < i ==> f@[j] == features@[j].0,
                forall|j: int| i <= j < MAX_FEATURES ==> f@[j] == 0,
            decreases N - i,
        {
            f[i] = features[i].0;
            i += 1;
        }
        PrimaryDeviceAttributes {
            conformance_level: conformance_level.0,
            features: f,
            num_features: N,
        }
    }
}

/// The level of conformance to the behavior of a specific or a family of physical terminal models.
#[derive(Clone, Copy, Debug, PartialEq, Eq, PartialOrd, Ord)]
pub struct ConformanceLevel(pub u16);

/// The levels that are known, as what [`ConformanceLevel`] holds.
impl ConformanceLevel {
    /// The level of a VT100.
    pub const VT100: u16 = 1;

    /// The level of a VT101.
    pub const VT101: u16 = 1;

    /// The level of a VT102.
    pub const VT102: u16 = 6;

    /// The level of a VT125.
    pub const VT125: u16 = 12;

    /// The level of a VT131.
    pub const VT131: u16 = 7;

    /// The level of a VT132.
    pub const VT132: u16 = 4;

    /// The level of a VT220.
    pub const VT220: u16 = 62;

    /// The level of a VT240.
    pub const VT240: u16 = 62;

    /// The level of a VT320.
    pub const VT320: u16 = 63;

    /// The level of a VT340.
    pub const VT340: u16 = 63;

    /// The level of a VT420.
    pub const VT420: u16 = 64;

    /// The level of a VT510.
    pub const VT510: u16 = 65;

    /// The level of a VT520.
    pub const VT520: u16 = 65;

    /// The level of a VT525.
    pub const VT525: u16 = 65;

    /// Equivalent to a VT2xx terminal.
    pub const LEVEL_2: u16 = 62;

    /// Equivalent to a VT3xx terminal.
    pub const LEVEL_3: u16 = 63;

    /// Equivalent to a VT4xx terminal.
    pub const LEVEL_4: u16 = 64;

    /// Equivalent to a VT5xx terminal.
    pub const LEVEL_5: u16 = 65;
}

/// A feature that a terminal can report to support.
#[derive(Clone, Copy, Debug, PartialEq, Eq, PartialOrd, Ord)]
pub struct DeviceAttributeFeature(pub u16);

/// The features that are known, as what [`DeviceAttributeFeature`] holds.
impl DeviceAttributeFeature {
    /// Columns 132.
    pub const COLUMNS_132: u16 = 1;

    /// Printer.
    pub const PRINTER: u16 = 2;

    /// Regis.
    pub const REGIS: u16 = 3;

    /// Sixel.
    pub const SIXEL: u16 = 4;

    /// Selective erase.
    pub const SELECTIVE_ERASE: u16 = 6;

    /// User defined keys.
    pub const USER_DEFINED_KEYS: u16 = 8;

    /// National replacement.
    pub const NATIONAL_REPLACEMENT: u16 = 9;

    /// Technical characters.
    pub const TECHNICAL_CHARACTERS: u16 = 15;

    /// Locator.
    pub const LOCATOR: u16 = 16;

    /// Terminal state.
    pub const TERMINAL_STATE: u16 = 17;

    /// Windowing.
    pub const WINDOWING: u16 = 18;

    /// Horizontal scrolling.
    pub const HORIZONTAL_SCROLLING: u16 = 21;

    /// Ansi color.
    pub const ANSI_COLOR: u16 = 22;

    /// Rectangular editing.
    pub const RECTANGULAR_EDITING: u16 = 28;

    /// Ansi text locator.
    pub const ANSI_TEXT_LOCATOR: u16 = 29;

    /// Clipboard.
    pub const CLIPBOARD: u16 = 52;
}

/// Secondary device attributes (DA2) response data.
///
/// Returned as part of [`DeviceAttributes`] in response to a CSI > c query. The response has the
/// form CSI > Pp ; Pv ; Pc c.
#[derive(Clone, Copy, Debug)]
pub struct SecondaryDeviceAttributes {
    /// Terminal type identifier (Pp).
    pub device_type: DeviceType,
    /// Firmware/patch version number (Pv).
    pub firmware_version: u16,
    /// ROM cartridge registration number (Pc). Always 0 for emulators.
    pub rom_cartridge: u16,
}

/// The type of terminal device being emulated.
#[derive(Clone, Copy, Debug, PartialEq, Eq, PartialOrd, Ord)]
pub struct DeviceType(pub u16);

/// The device types that are known, as what [`DeviceType`] holds.
impl DeviceType {
    /// A VT100.
    pub const VT100: u16 = 0;

    /// A VT220.
    pub const VT220: u16 = 1;

    /// A VT240.
    pub const VT240: u16 = 2;

    /// A VT330.
    pub const VT330: u16 = 18;

    /// A VT340.
    pub const VT340: u16 = 19;

    /// A VT320.
    pub const VT320: u16 = 24;

    /// A VT382.
    pub const VT382: u16 = 32;

    /// A VT420.
    pub const VT420: u16 = 41;

    /// A VT510.
    pub const VT510: u16 = 61;

    /// A VT520.
    pub const VT520: u16 = 64;

    /// A VT525.
    pub const VT525: u16 = 65;
}

/// Tertiary device attributes (DA3) response data.
///
/// Returned as part of [`DeviceAttributes`] in response to a CSI = c query.
#[derive(Clone, Copy, Debug, PartialEq, Eq, Default)]
pub struct TertiaryDeviceAttributes {
    /// Unit ID encoded as 8 uppercase hex digits in the response.
    pub unit_id: u32,
}

/// Color scheme reported in response to a CSI ? 996 n query.
#[derive(Clone, Copy, Debug, PartialEq, Eq, Structural)]
pub enum ColorScheme {
    /// A light scheme.
    Light,
    /// A dark scheme.
    Dark,
}

impl ColorScheme {
    /// The number that stands for this value in the engine's interface.
    pub open spec fn spec_code(self) -> u32 {
        match self {
            ColorScheme::Light => 0,
            ColorScheme::Dark => 1,
        }
    }

    /// The value that `code` stands for; a number that stands for none is an invalid value.
    pub open spec fn decoded(code: u32) -> Result<Self> {
        match code {
            0 => Ok(ColorScheme::Light),
            1 => Ok(ColorScheme::Dark),
            _ => Err(Error::InvalidValue),
        }
    }

    /// The number that stands for this value in the engine's interface.
    pub fn code(self) -> (res: u32)
        ensures
            res == self.spec_code(),
    {
        match self {
            ColorScheme::Light => 0,
            ColorScheme::Dark => 1,
        }
    }

    /// The value that `code` stands for.
    pub fn from_code(code: u32) -> (res: Result<Self>)
        ensures
            res == Self::decoded(code),
    {
        match code {
            0 => Ok(ColorScheme::Light),
            1 => Ok(ColorScheme::Dark),
            _ => Err(Error::InvalidValue),
        }
    }

    /// Every value has a number of its own, and a number decodes to the value that it stands for
    /// and to nothing else.
    pub proof fn codes_round_trip(self, code: u32)
        ensures
            Self::decoded(self.spec_code()) == Ok::<Self, Error>(self),
            Self::decoded(code) matches Ok(value) ==> value.spec_code() == code,
    {
    }

    /// The engine counts the values from zero on: `Light`, `Dark`. No other number stands for one.
    pub proof fn values_are_counted(self, code: u32)
        ensures
            self is Light <==> self.spec_code() == 0,
            self is Dark <==> self.spec_code() == 1,
            Self::decoded(code) == Ok::<Self, Error>(self) <==> code == self.spec_code(),
            Self::decoded(code) is Ok <==> code < 2,
            Self::decoded(code) is Err ==> Self::decoded(code) == Err::<Self, Error>(
                Error::InvalidValue,
            ),
    {
    }
}

/// The size that a terminal reports in response to XTWINOPS size queries.
#[derive(Clone, Copy, Debug, PartialEq, Eq, Structural)]
pub struct SizeReportSize {
    /// The height in cells.
    pub rows: u16,
    /// The width in cells.
    pub columns: u16,
    /// The width of a cell in pixels.
    pub cell_width: u32,
    /// The height of a cell in pixels.
    pub cell_height: u32,
}

//---------------------------------------
// Effects
//---------------------------------------

/// The handlers of a terminal's effects.
#[derive(Debug)]
pub struct Handlers<H> {
    /// The handler of [`Terminal::on_pty_write`].
    pub pty_write: Option<H>,
    /// The handler of [`Terminal::on_bell`].
    pub bell: Option<H>,
    /// The handler of [`Terminal::on_enquiry`].
    pub enquiry: Option<H>,
    /// The handler of [`Terminal::on_xtversion`].
    pub xtversion: Option<H>,
    /// The handler of [`Terminal::on_title_changed`].
    pub title_changed: Option<H>,
    /// The handler of [`Terminal::on_size`].
    pub size: Option<H>,
    /// The handler of [`Terminal::on_color_scheme`].
    pub color_scheme: Option<H>,
    /// The handler of [`Terminal::on_device_attributes`].
    pub device_attributes: Option<H>,
}

impl<H> Handlers<H> {
    /// No handler is registered.
    pub open spec fn is_empty(self) -> bool {
        &&& self.pty_write is None
        &&& self.bell is None
        &&& self.enquiry is None
        &&& self.xtversion is None
        &&& self.title_changed is None
        &&& self.size is None
        &&& self.color_scheme is None
        &&& self.device_attributes is None
    }

    /// No handlers.
    pub fn new() -> (res: Self)
        ensures
            res.is_empty(),
    {
        Handlers {
            pty_write: None,
            bell: None,
            enquiry: None,
            xtversion: None,
            title_changed: None,
            size: None,
            color_scheme: None,
            device_attributes: None,
        }
    }
}

/// A registration of the handler of `option` can ask `set` what it has to.
pub open spec fn registers<S, F: Fn(S, usize, TerminalOption) -> (S, i32)>(
    set: F,
    terminal: usize,
    option: TerminalOption,
    engine: S,
) -> bool {
    &&& set.requires((engine, terminal, TerminalOption::Userdata))
    &&& forall|first: (S, i32)| #[trigger]
        set.ensures((engine, terminal, TerminalOption::Userdata), first) && outcome(first.1) is Ok
            ==> set.requires((first.0, terminal, option))
}

/// `res` is what a registration of the handler of `option` comes to: the engine afterwards, and
/// whether the handler is registered.
///
/// The engine is first given the handlers, and then, if it took them, told to call this one. An
/// engine that did not take them is asked for nothing more.
pub open spec fn registered<S, F: Fn(S, usize, TerminalOption) -> (S, i32)>(
    set: F,
    terminal: usize,
    option: TerminalOption,
    engine: S,
    res: (S, Result<()>),
) -> bool {
    exists|first: (S, i32)| #[trigger]
        set.ensures((engine, terminal, TerminalOption::Userdata), first) && match outcome(first.1) {
            Ok(_) => exists|second: (S, i32)| #[trigger]
                set.ensures((first.0, terminal, option), second) && res == (
                    second.0,
                    outcome(second.1),
                ),
            Err(e) => res == (first.0, Err::<(), Error>(e)),
        }
}

impl<H> Terminal<H> {
    fn register<S, F: Fn(S, usize, TerminalOption) -> (S, i32)>(
        &self,
        option: TerminalOption,
        engine: S,
        set: F,
    ) -> (res: (S, Result<()>))
        requires
            registers(set, self.addr(), option, engine),
        ensures
            registered(set, self.addr(), option, engine, res),
    {
        let first = set(engine, self.as_raw(), TerminalOption::Userdata);
        let ghost given = first;
        match from_result(first.1) {
            Ok(_) => {
                let second = set(first.0, self.as_raw(), option);
                assert(set.ensures((given.0, self.addr(), option), second));
                (second.0, from_result(second.1))
            },
            Err(e) => (first.0, Err(e)),
        }
    }

    /// The handlers that are registered.
    pub fn handlers_mut(&mut self) -> (res: &mut Handlers<H>)
        ensures
            *res == old(self).handlers(),
            final(self).addr() == old(self).addr(),
            final(self).handlers() == *final(res),
    {
        &mut self.handlers
    }

    /// Have a handler called when the terminal needs to write data back to the pty (e.g. in response
    /// to a DECRQM query or device status report).
    pub fn on_pty_write<S>(
        &mut self,
        f: H,
        engine: S,
        set: impl Fn(S, usize, TerminalOption) -> (S, i32),
    ) -> (res: (S, Result<()>))
        requires
            registers(set, old(self).addr(), TerminalOption::WritePty, engine),
        ensures
            final(self).addr() == old(self).addr(),
            final(self).handlers() == (Handlers { pty_write: Some(f), ..old(self).handlers() }),
            registered(set, old(self).addr(), TerminalOption::WritePty, engine, res),
    {
        self.handlers.pty_write = Some(f);
        self.register(TerminalOption::WritePty, engine, set)
    }

    /// Have a handler called when the terminal receives a BEL character (0x07).
    pub fn on_bell<S>(
        &mut self,
        f: H,
        engine: S,
        set: impl Fn(S, usize, TerminalOption) -> (S, i32),
    ) -> (res: (S, Result<()>))
        requires
            registers(set, old(self).addr(), TerminalOption::Bell, engine),
        ensures
            final(self).addr() == old(self).addr(),
            final(self).handlers() == (Handlers { bell: Some(f), ..old(self).handlers() }),
            registered(set, old(self).addr(), TerminalOption::Bell, engine, res),
    {
        self.handlers.bell = Some(f);
        self.register(TerminalOption::Bell, engine, set)
    }

    /// Have a handler called when the terminal receives an ENQ character (0x05).
    pub fn on_enquiry<S>(
        &mut self,
        f: H,
        engine: S,
        set: impl Fn(S, usize, TerminalOption) -> (S, i32),
    ) -> (res: (S, Result<()>))
        requires
            registers(set, old(self).addr(), TerminalOption::Enquiry, engine),
        ensures
            final(self).addr() == old(self).addr(),
            final(self).handlers() == (Handlers { enquiry: Some(f), ..old(self).handlers() }),
            registered(set, old(self).addr(), TerminalOption::Enquiry, engine, res),
    {
        self.handlers.enquiry = Some(f);
        self.register(TerminalOption::Enquiry, engine, set)
    }

    /// Have a handler called when the terminal receives an XTVERSION query (CSI > q).
    pub fn on_xtversion<S>(
        &mut self,
        f: H,
        engine: S,
        set: impl Fn(S, usize, TerminalOption) -> (S, i32),
    ) -> (res: (S, Result<()>))
        requires
            registers(set, old(self).addr(), TerminalOption::Xtversion, engine),
        ensures
            final(self).addr() == old(self).addr(),
            final(self).handlers() == (Handlers { xtversion: Some(f), ..old(self).handlers() }),
            registered(set, old(self).addr(), TerminalOption::Xtversion, engine, res),
    {
        self.handlers.xtversion = Some(f);
        self.register(TerminalOption::Xtversion, engine, set)
    }

    /// Have a handler called when the terminal title changes via escape sequences (e.g. OSC 0 or
    /// OSC 2).
    pub fn on_title_changed<S>(
        &mut self,
        f: H,
        engine: S,
        set: impl Fn(S, usize, TerminalOption) -> (S, i32),
    ) -> (res: (S, Result<()>))
        requires
            registers(set, old(self).addr(), TerminalOption::TitleChanged, engine),
        ensures
            final(self).addr() == old(self).addr(),
            final(self).handlers() == (Handlers { title_changed: Some(f), ..old(self).handlers() }),
            registered(set, old(self).addr(), TerminalOption::TitleChanged, engine, res),
    {
        self.handlers.title_changed = Some(f);
        self.register(TerminalOption::TitleChanged, engine, set)
    }

    /// Have a handler called in response to XTWINOPS size queries (CSI 14/16/18 t).
    pub fn on_size<S>(
        &mut self,
        f: H,
        engine: S,
        set: impl Fn(S, usize, TerminalOption) -> (S, i32),
    ) -> (res: (S, Result<()>))
        requires
            registers(set, old(self).addr(), TerminalOption::Size, engine),
        ensures
            final(self).addr() == old(self).addr(),
            final(self).handlers() == (Handlers { size: Some(f), ..old(self).handlers() }),
            registered(set, old(self).addr(), TerminalOption::Size, engine, res),
    {
        self.handlers.size = Some(f);
        self.register(TerminalOption::Size, engine, set)
    }

    /// Have a handler called in response to a color scheme device status report query
    /// (CSI ? 996 n).
    pub fn on_color_scheme<S>(
        &mut self,
        f: H,
        engine: S,
        set: impl Fn(S, usize, TerminalOption) -> (S, i32),
    ) -> (res: (S, Result<()>))
        requires
            registers(set, old(self).addr(), TerminalOption::ColorScheme, engine),
        ensures
            final(self).addr() == old(self).addr(),
            final(self).handlers() == (Handlers { color_scheme: Some(f), ..old(self).handlers() }),
            registered(set, old(self).addr(), TerminalOption::ColorScheme, engine, res),
    {
        self.handlers.color_scheme = Some(f);
        self.register(TerminalOption::ColorScheme, engine, set)
    }

    /// Have a handler called in response to a device attributes query (CSI c, CSI > c, or CSI = c).
    pub fn on_device_attributes<S>(
        &mut self,
        f: H,
        engine: S,
        set: impl Fn(S, usize, TerminalOption) -> (S, i32),
    ) -> (res: (S, Result<()>))
        requires
            registers(set, old(self).addr(), TerminalOption::DeviceAttributes, engine),
        ensures
            final(self).addr() == old(self).addr(),
            final(self).handlers() == (Handlers {
                device_attributes: Some(f),
                ..old(self).handlers()
            }),
            registered(set, old(self).addr(), TerminalOption::DeviceAttributes, engine, res),
    {
        self.handlers.device_attributes = Some(f);
        self.register(TerminalOption::DeviceAttributes, engine, set)
    }
}

/// The text that a handler of an ENQ character or of an XTVERSION query answers with: an empty one
/// if it has none.
pub fn text_or_empty(answer: Option<String>) -> (res: String)
    ensures
        res@ == match answer {
            Some(text) => text@,
            None => Seq::<char>::empty(),
        },
{
    match answer {
        Some(text) => text,
        None => String::new(),
    }
}

/// What the engine is told about a color scheme query: the number of the scheme, or nothing, so
/// that the query is ignored.
pub fn color_scheme_answer(answer: Option<ColorScheme>) -> (res: Option<u32>)
    ensures
        res == match answer {
            Some(scheme) => Some(scheme.spec_code()),
            None => None,
        },
{
    match answer {
        Some(scheme) => Some(scheme.code()),
        None => None,
    }
}

/// A handler is registered exactly if the engine takes the handlers and then the option, in this
/// order. An engine that refuses the handlers is not told of the option, and the error is the one of
/// the first refusal.
pub proof fn handlers_come_before_the_option<S, F: Fn(S, usize, TerminalOption) -> (S, i32)>(
    set: F,
    terminal: usize,
    option: TerminalOption,
    engine: S,
    res: (S, Result<()>),
)
    requires
        registered(set, terminal, option, engine, res),
    ensures
        exists|first: (S, i32)|
            {
                &&& #[trigger] set.ensures((engine, terminal, TerminalOption::Userdata), first)
                &&& first.1 != 0 ==> {
                    &&& res.0 == first.0
                    &&& res.1 is Err
                    &&& outcome(first.1) == res.1
                }
                &&& first.1 == 0 ==> exists|second: (S, i32)|
                    {
                        &&& #[trigger] set.ensures((first.0, terminal, option), second)
                        &&& res.0 == second.0
                        &&& res.1 is Ok <==> second.1 == 0
                        &&& outcome(second.1) == res.1
                    }
            },
{
}

/// A text comes out exactly if the engine answered with bytes that are UTF-8, and is what they say.
pub proof fn texts_are_what_the_bytes_say(answer: Result<Vec<u8>>, res: Result<String>)
    requires
        text_result(answer, res),
    ensures
        res is Ok <==> answer is Ok && vstd::utf8::valid_utf8(answer->Ok_0@),
        res matches Ok(text) ==> text@ == vstd::utf8::decode_utf8(answer->Ok_0@),
        answer matches Err(e) ==> res == Err::<String, Error>(e),
        answer is Ok && res is Err ==> res == Err::<String, Error>(Error::InvalidValue),
{
}

//---------------------------------------
// Resetting
//---------------------------------------

/// `res` is what some answer to the question where `point` is in the grid comes to.
pub open spec fn resolved<F: FnOnce(usize, RawPoint) -> Reply<GridRef>>(
    resolve: F,
    terminal: usize,
    point: Point,
    res: Result<GridRef>,
) -> bool {
    exists|reply: Reply<GridRef>| #[trigger]
        resolve.ensures((terminal, point.raw()), reply) && res == reply.outcome()
}

/// What the engine keeps of a terminal, as far as a reset goes.
pub ghost struct TerminalState {
    /// The width in cells.
    pub cols: u16,
    /// The height in cells.
    pub rows: u16,
    /// The number of scrollback rows.
    pub scrollback_rows: usize,
    /// Which modes are set.
    pub modes: spec_fn(u16) -> bool,
    /// The cells of the active area, by column and row.
    pub cells: spec_fn(PointCoordinate) -> u64,
}

/// The terminals that the engine keeps, and what its references to the grid mean.
#[verifier::reject_recursive_types(S)]
pub ghost struct TerminalView<S> {
    /// What the engine keeps of a terminal.
    pub kept: spec_fn(S, usize) -> TerminalState,
    /// What a new terminal of a width and a height is.
    pub initial: spec_fn(u16, u16) -> TerminalState,
    /// The terminal that a grid reference belongs to, and the place in the active area.
    pub place: spec_fn(S, GridRef) -> (usize, PointCoordinate),
    /// What a cell holds.
    pub content: spec_fn(u64) -> CellContent,
}

impl<S> TerminalView<S> {
    /// A new terminal has the size that it is made with, no scrollback, and only empty cells.
    pub open spec fn starts_empty(self) -> bool {
        forall|cols: u16, rows: u16|
            {
                let state = #[trigger] (self.initial)(cols, rows);
                &&& state.cols == cols
                &&& state.rows == rows
                &&& state.scrollback_rows == 0
                &&& forall|at: PointCoordinate|
                    at.x < cols && at.y < rows ==> (self.content)(#[trigger] (state.cells)(at))
                        == CellContent::blank()
            }
    }

    /// `reset` makes a terminal what a new one of its size is.
    pub open spec fn starts_over<F: FnOnce(&S, usize) -> S>(self, reset: F) -> bool {
        forall|before: &S, terminal: usize, after: S| #[trigger]
            reset.ensures((before, terminal), after) ==> (self.kept)(after, terminal) == (
            self.initial)(
                (self.kept)(*before, terminal).cols,
                (self.kept)(*before, terminal).rows,
            )
    }

    /// `ask` answers with the sizes of an engine's terminals.
    pub open spec fn tells_size<F: FnOnce(usize, TerminalData) -> Reply<u16>>(
        self,
        ask: spec_fn(S) -> F,
    ) -> bool {
        forall|engine: S, terminal: usize, tag: TerminalData, reply: Reply<u16>| #[trigger]
            ask(engine).ensures((terminal, tag), reply) ==> {
                &&& tag == TerminalData::Cols ==> reply.outcome() == Ok::<u16, Error>(
                    (self.kept)(engine, terminal).cols,
                )
                &&& tag == TerminalData::Rows ==> reply.outcome() == Ok::<u16, Error>(
                    (self.kept)(engine, terminal).rows,
                )
            }
    }

    /// `ask` answers with the scrollback of an engine's terminals.
    pub open spec fn tells_scrollback<F: FnOnce(usize, TerminalData) -> Reply<usize>>(
        self,
        ask: spec_fn(S) -> F,
    ) -> bool {
        forall|engine: S, terminal: usize, reply: Reply<usize>| #[trigger]
            ask(engine).ensures((terminal, TerminalData::ScrollbackRows), reply)
                ==> reply.outcome() == Ok::<usize, Error>(
                (self.kept)(engine, terminal).scrollback_rows,
            )
    }

    /// `ask` answers with the modes of an engine's terminals.
    pub open spec fn tells_modes<F: FnOnce(usize, u16) -> Reply<bool>>(
        self,
        ask: spec_fn(S) -> F,
    ) -> bool {
        forall|engine: S, terminal: usize, mode: u16, reply: Reply<bool>| #[trigger]
            ask(engine).ensures((terminal, mode), reply) ==> reply.outcome() == Ok::<bool, Error>(
                ((self.kept)(engine, terminal).modes)(mode),
            )
    }

    /// `ask` answers with a reference to the place of a point in the active area.
    pub open spec fn resolves<F: FnOnce(usize, RawPoint) -> Reply<GridRef>>(
        self,
        ask: spec_fn(S) -> F,
    ) -> bool {
        forall|engine: S, terminal: usize, at: PointCoordinate, reply: Reply<GridRef>|
            {
                let state = (self.kept)(engine, terminal);
                #[trigger] ask(engine).ensures((terminal, Point::Active(at).raw()), reply) && at.x
                    < state.cols && at.y < state.rows ==> {
                    &&& reply.outcome() is Ok
                    &&& (self.place)(engine, reply.value) == (terminal, at)
                }
            }
    }

    /// `ask` answers with the cells that references to the grid stand for.
    pub open spec fn tells_cells<F: FnOnce(GridRef) -> Reply<u64>>(
        self,
        ask: spec_fn(S) -> F,
    ) -> bool {
        forall|engine: S, grid: GridRef, reply: Reply<u64>| #[trigger]
            ask(engine).ensures((grid,), reply) ==> {
                let (terminal, at) = (self.place)(engine, grid);
                reply.outcome() == Ok::<u64, Error>(((self.kept)(engine, terminal).cells)(at))
            }
    }
}

/// Whatever a terminal was, a reset keeps its size and makes the rest what it is in a new terminal
/// of that size: no scrollback, the same modes, and only empty cells. A second reset changes
/// nothing.
pub proof fn a_reset_terminal_is_a_new_one<
    S,
    R: Fn(&S, usize) -> S,
    D: FnOnce(usize, TerminalData) -> Reply<u16>,
    B: FnOnce(usize, TerminalData) -> Reply<usize>,
    M: FnOnce(usize, u16) -> Reply<bool>,
    G: FnOnce(usize, RawPoint) -> Reply<GridRef>,
    C: FnOnce(GridRef) -> Reply<u64>,
>(
    view: TerminalView<S>,
    reset: R,
    ask_size: spec_fn(S) -> D,
    ask_scrollback: spec_fn(S) -> B,
    ask_mode: spec_fn(S) -> M,
    resolve: spec_fn(S) -> G,
    ask_cell: spec_fn(S) -> C,
    terminal: usize,
    before: S,
    cols: u16,
    rows: u16,
    after: S,
    cols_after: Result<u16>,
    rows_after: Result<u16>,
    scrollback: Result<usize>,
    fresh: S,
    new: usize,
    mode: Mode,
    mode_new: Result<bool>,
    mode_after: Result<bool>,
    at: PointCoordinate,
    grid: Result<GridRef>,
    cell: Result<Cell>,
    twice: S,
)
    requires
        view.starts_empty(),
        view.starts_over(reset),
        view.tells_size(ask_size),
        view.tells_scrollback(ask_scrollback),
        view.tells_modes(ask_mode),
        view.resolves(resolve),
        view.tells_cells(ask_cell),
        answered(ask_size(before), terminal, TerminalData::Cols, Ok(cols)),
        answered(ask_size(before), terminal, TerminalData::Rows, Ok(rows)),
        reset.ensures((&before, terminal), after),
        answered(ask_size(after), terminal, TerminalData::Cols, cols_after),
        answered(ask_size(after), terminal, TerminalData::Rows, rows_after),
        answered(ask_scrollback(after), terminal, TerminalData::ScrollbackRows, scrollback),
        (view.kept)(fresh, new) == (view.initial)(cols, rows),
        answered(ask_mode(fresh), new, mode.0, mode_new),
        answered(ask_mode(after), terminal, mode.0, mode_after),
        at.x < cols,
        at.y < rows,
        resolved(resolve(after), terminal, Point::Active(at), grid),
        grid matches Ok(grid) ==> cell_told(ask_cell(after), grid, cell),
        reset.ensures((&after, terminal), twice),
    ensures
        cols_after == Ok::<u16, Error>(cols),
        rows_after == Ok::<u16, Error>(rows),
        scrollback == Ok::<usize, Error>(0),
        mode_after == mode_new,
        grid is Ok,
        cell matches Ok(cell) && (view.content)(cell.0) == CellContent::blank(),
        (view.kept)(twice, terminal) == (view.kept)(after, terminal),
{
    let state = (view.initial)(cols, rows);
    assert((view.kept)(before, terminal).cols == cols);
    assert((view.kept)(before, terminal).rows == rows);
    assert((view.kept)(after, terminal) == state);
    assert((view.content)((state.cells)(at)) == CellContent::blank());
}

} // verus!
