//! Encoding mouse events into terminal escape sequences.
//!
//! Supports X10, UTF-8, SGR, URxvt, and SGR-Pixels mouse protocols.
//!
//! # Basic usage
//!
//!  1. Create an encoder with [`Encoder::new`].
//!  2. Configure it with the various `Encoder::set_*` methods or
//!     [`Encoder::set_options_from_terminal`].
//!  3. For each mouse event, create an [`Event`] (or reuse one), set its properties, and encode it
//!     with [`Encoder::encode_to_vec`] or [`Encoder::encode`].
use crate::buffer::{appended, encode_to_buf, encode_to_vec, encodes, writes, written, BufReply};
use crate::error::{Error, Result};
use crate::key::Mods;
use crate::memory::{created, new_object, Allocator, NewReply, Object, DEFAULT_ALLOCATOR};
use crate::terminal::Terminal;
use vstd::prelude::*;

verus! {

/// Mouse encoder that converts normalized mouse events into terminal escape sequences.
#[derive(Debug)]
pub struct Encoder {
    inner: Object,
}

impl Encoder {
    /// The address of the mouse encoder.
    pub closed spec fn addr(&self) -> usize {
        self.inner.addr()
    }

    /// The address that a constructor's result holds, or its error.
    pub open spec fn addr_of(res: Result<Self>) -> Result<usize> {
        match res {
            Ok(value) => Ok(value.addr()),
            Err(e) => Err(e),
        }
    }

    /// Create a new mouse encoder.
    pub fn new(create: impl FnOnce(usize) -> NewReply) -> (res: Result<Self>)
        requires
            create.requires((DEFAULT_ALLOCATOR,)),
        ensures
            created(create, DEFAULT_ALLOCATOR, Self::addr_of(res)),
    {
        Self::new_inner(DEFAULT_ALLOCATOR, create)
    }

    /// Create a new mouse encoder with a custom allocator.
    pub fn new_with_alloc(
        alloc: &Allocator,
        create: impl FnOnce(usize) -> NewReply,
    ) -> (res: Result<Self>)
        requires
            create.requires((alloc.addr(),)),
        ensures
            created(create, alloc.addr(), Self::addr_of(res)),
    {
        Self::new_inner(alloc.to_raw(), create)
    }

    fn new_inner<F: FnOnce(usize) -> NewReply>(alloc: usize, create: F) -> (res: Result<Self>)
        requires
            create.requires((alloc,)),
        ensures
            created(create, alloc, Self::addr_of(res)),
    {
        match new_object(alloc, create) {
            Ok(inner) => Ok(Encoder { inner }),
            Err(e) => Err(e),
        }
    }

    /// The address of the mouse encoder.
    pub fn as_raw(&self) -> (res: usize)
        ensures
            res == self.addr(),
    {
        self.inner.as_raw()
    }

    /// Encode a mouse event into a terminal escape sequence.
    ///
    /// The bytes are appended to `vec`, which grows if more capacity is needed. Not all mouse events
    /// produce output.
    pub fn encode_to_vec<S>(
        &mut self,
        event: &Event,
        vec: &mut Vec<u8>,
        engine: &mut S,
        encode: impl Fn(&S, usize, usize, usize) -> (S, BufReply<u8>),
    ) -> (res: Result<()>)
        requires
            encodes(encode, old(self).addr(), event.addr(), old(vec)@.len()),
        ensures
            *final(self) == *old(self),
            exists|room: usize, first: (S, BufReply<u8>)| #[trigger]
                encode.ensures((&*old(engine), old(self).addr(), event.addr(), room), first)
                    && appended(
                    encode,
                    old(self).addr(),
                    event.addr(),
                    first,
                    old(vec)@,
                    final(vec)@,
                    *final(engine),
                    res,
                ),
    {
        encode_to_vec(self.as_raw(), event.as_raw(), vec, engine, encode)
    }

    /// Encode a mouse event into a terminal escape sequence.
    ///
    /// The bytes are written to the front of the buffer; the result is how many they are. Not all
    /// mouse events produce output.
    ///
    /// If the buffer is too small, this returns `OutOfSpace` with the size that is needed.
    pub fn encode<S>(
        &mut self,
        event: &Event,
        buf: &mut [u8],
        engine: &mut S,
        encode: impl FnOnce(&S, usize, usize, usize) -> (S, BufReply<u8>),
    ) -> (res: Result<usize>)
        requires
            writes(
                encode,
                old(self).addr(),
                event.addr(),
                *old(engine),
                old(buf)@.len() as usize,
            ),
        ensures
            *final(self) == *old(self),
            written(
                encode,
                old(self).addr(),
                event.addr(),
                *old(engine),
                old(buf)@,
                final(buf)@,
                *final(engine),
                res,
            ),
    {
        encode_to_buf(self.as_raw(), event.as_raw(), buf, engine, encode)
    }

    /// Set encoder options from a terminal's current state.
    ///
    /// The engine sets tracking mode and output format from terminal state. It does not modify size
    /// or any-button state.
    pub fn set_options_from_terminal<S, H>(
        &mut self,
        terminal: &Terminal<H>,
        engine: &mut S,
        sync: impl FnOnce(&S, usize, usize) -> S,
    ) -> (res: &mut Self)
        requires
            sync.requires((&*old(engine), old(self).addr(), terminal.addr())),
        ensures
            *res == *old(self),
            *final(self) == *final(res),
            sync.ensures((&*old(engine), old(self).addr(), terminal.addr()), *final(engine)),
    {
        *engine = sync(&*engine, self.as_raw(), terminal.as_raw());
        self
    }

    /// Set mouse tracking mode.
    pub fn set_tracking_mode<S>(
        &mut self,
        value: TrackingMode,
        engine: &mut S,
        setopt: impl FnOnce(&S, usize, EncoderOption, u32) -> S,
    ) -> (res: &mut Self)
        requires
            setopt.requires(
                (&*old(engine), old(self).addr(), EncoderOption::TrackingMode, value.spec_code()),
            ),
        ensures
            *res == *old(self),
            *final(self) == *final(res),
            setopt.ensures(
                (&*old(engine), old(self).addr(), EncoderOption::TrackingMode, value.spec_code()),
                *final(engine),
            ),
    {
        *engine = setopt(&*engine, self.as_raw(), EncoderOption::TrackingMode, value.code());
        self
    }

    /// Set mouse output format.
    pub fn set_format<S>(
        &mut self,
        value: Format,
        engine: &mut S,
        setopt: impl FnOnce(&S, usize, EncoderOption, u32) -> S,
    ) -> (res: &mut Self)
        requires
            setopt.requires(
                (&*old(engine), old(self).addr(), EncoderOption::Format, value.spec_code()),
            ),
        ensures
            *res == *old(self),
            *final(self) == *final(res),
            setopt.ensures(
                (&*old(engine), old(self).addr(), EncoderOption::Format, value.spec_code()),
                *final(engine),
            ),
    {
        *engine = setopt(&*engine, self.as_raw(), EncoderOption::Format, value.code());
        self
    }

    /// Set renderer size context.
    pub fn set_size<S>(
        &mut self,
        value: EncoderSize,
        engine: &mut S,
        setopt: impl FnOnce(&S, usize, EncoderOption, EncoderSize) -> S,
    ) -> (res: &mut Self)
        requires
            setopt.requires((&*old(engine), old(self).addr(), EncoderOption::Size, value)),
        ensures
            *res == *old(self),
            *final(self) == *final(res),
            setopt.ensures(
                (&*old(engine), old(self).addr(), EncoderOption::Size, value),
                *final(engine),
            ),
    {
        *engine = setopt(&*engine, self.as_raw(), EncoderOption::Size, value);
        self
    }

    /// Set whether any mouse button is currently pressed.
    pub fn set_any_button_pressed<S>(
        &mut self,
        value: bool,
        engine: &mut S,
        setopt: impl FnOnce(&S, usize, EncoderOption, bool) -> S,
    ) -> (res: &mut Self)
        requires
            setopt.requires(
                (&*old(engine), old(self).addr(), EncoderOption::AnyButtonPressed, value),
            ),
        ensures
            *res == *old(self),
            *final(self) == *final(res),
            setopt.ensures(
                (&*old(engine), old(self).addr(), EncoderOption::AnyButtonPressed, value),
                *final(engine),
            ),
    {
        *engine = setopt(&*engine, self.as_raw(), EncoderOption::AnyButtonPressed, value);
        self
    }

    /// Set whether to enable motion deduplication by last cell.
    pub fn set_track_last_cell<S>(
        &mut self,
        value: bool,
        engine: &mut S,
        setopt: impl FnOnce(&S, usize, EncoderOption, bool) -> S,
    ) -> (res: &mut Self)
        requires
            setopt.requires((&*old(engine), old(self).addr(), EncoderOption::TrackLastCell, value)),
        ensures
            *res == *old(self),
            *final(self) == *final(res),
            setopt.ensures(
                (&*old(engine), old(self).addr(), EncoderOption::TrackLastCell, value),
                *final(engine),
            ),
    {
        *engine = setopt(&*engine, self.as_raw(), EncoderOption::TrackLastCell, value);
        self
    }

    /// Reset internal encoder state.
    ///
    /// This clears motion deduplication state (last tracked cell).
    pub fn reset<S>(&mut self, engine: &mut S, reset: impl FnOnce(&S, usize) -> S)
        requires
            reset.requires((&*old(engine), old(self).addr())),
        ensures
            *final(self) == *old(self),
            reset.ensures((&*old(engine), old(self).addr()), *final(engine)),
    {
        *engine = reset(&*engine, self.as_raw())
    }
}

/// The options of a mouse encoder.
#[derive(Clone, Copy, Debug, PartialEq, Eq, Structural)]
pub enum EncoderOption {
    /// Mouse tracking mode.
    TrackingMode,
    /// Mouse output format.
    Format,
    /// Renderer size context.
    Size,
    /// Whether any mouse button is currently pressed.
    AnyButtonPressed,
    /// Whether to enable motion deduplication by last cell.
    TrackLastCell,
}

/// Normalized mouse input event containing action, button, modifiers, and surface-space position.
#[derive(Debug)]
pub struct Event {
    inner: Object,
}

impl Event {
    /// The address of the mouse event.
    pub closed spec fn addr(&self) -> usize {
        self.inner.addr()
    }

    /// The address that a constructor's result holds, or its error.
    pub open spec fn addr_of(res: Result<Self>) -> Result<usize> {
        match res {
            Ok(value) => Ok(value.addr()),
            Err(e) => Err(e),
        }
    }

    /// Create a new mouse event.
    pub fn new(create: impl FnOnce(usize) -> NewReply) -> (res: Result<Self>)
        requires
            create.requires((DEFAULT_ALLOCATOR,)),
        ensures
            created(create, DEFAULT_ALLOCATOR, Self::addr_of(res)),
    {
        Self::new_inner(DEFAULT_ALLOCATOR, create)
    }

    /// Create a new mouse event with a custom allocator.
    pub fn new_with_alloc(
        alloc: &Allocator,
        create: impl FnOnce(usize) -> NewReply,
    ) -> (res: Result<Self>)
        requires
            create.requires((alloc.addr(),)),
        ensures
            created(create, alloc.addr(), Self::addr_of(res)),
    {
        Self::new_inner(alloc.to_raw(), create)
    }

    fn new_inner<F: FnOnce(usize) -> NewReply>(alloc: usize, create: F) -> (res: Result<Self>)
        requires
            create.requires((alloc,)),
        ensures
            created(create, alloc, Self::addr_of(res)),
    {
        match new_object(alloc, create) {
            Ok(inner) => Ok(Event { inner }),
            Err(e) => Err(e),
        }
    }

    /// The address of the mouse event.
    pub fn as_raw(&self) -> (res: usize)
        ensures
            res == self.addr(),
    {
        self.inner.as_raw()
    }

    /// Set the event action.
    pub fn set_action<S>(
        &mut self,
        action: Action,
        engine: &mut S,
        set: impl FnOnce(&S, usize, u32) -> S,
    ) -> (res: &mut Self)
        requires
            set.requires((&*old(engine), old(self).addr(), action.spec_code())),
        ensures
            *res == *old(self),
            *final(self) == *final(res),
            set.ensures((&*old(engine), old(self).addr(), action.spec_code()), *final(engine)),
    {
        *engine = set(&*engine, self.as_raw(), action.code());
        self
    }

    /// Get the event action.
    ///
    /// A number that stands for no action counts as a press.
    #[must_use]
    pub fn action<S>(&self, engine: &S, get: impl FnOnce(&S, usize) -> u32) -> (res: Action)
        requires
            get.requires((engine, self.addr())),
        ensures
            exists|value: u32| #[trigger]
                get.ensures((engine, self.addr()), value) && res == match Action::decoded(value) {
                    Ok(action) => action,
                    Err(_) => Action::Press,
                },
    {
        let value = get(engine, self.as_raw());
        match Action::from_code(value) {
            Ok(action) => action,
            Err(_) => Action::Press,
        }
    }

    /// Set the event button, or clear it.
    pub fn set_button<S>(
        &mut self,
        button: Option<Button>,
        engine: &mut S,
        set: impl FnOnce(&S, usize, u32) -> S,
        clear: impl FnOnce(&S, usize) -> S,
    ) -> (res: &mut Self)
        requires
            button matches Some(button) ==> set.requires(
                (&*old(engine), old(self).addr(), button.spec_code()),
            ),
            button is None ==> clear.requires((&*old(engine), old(self).addr())),
        ensures
            *res == *old(self),
            *final(self) == *final(res),
            match button {
                Some(button) => set.ensures(
                    (&*old(engine), old(self).addr(), button.spec_code()),
                    *final(engine),
                ),
                None => clear.ensures((&*old(engine), old(self).addr()), *final(engine)),
            },
    {
        match button {
            Some(button) => *engine = set(&*engine, self.as_raw(), button.code()),
            None => *engine = clear(&*engine, self.as_raw()),
        }
        self
    }

    /// Get the event button, if there is one.
    ///
    /// A number that stands for no button counts as an unknown one.
    #[must_use]
    pub fn button<S>(
        &self,
        engine: &S,
        get: impl FnOnce(&S, usize) -> Option<u32>,
    ) -> (res: Option<Button>)
        requires
            get.requires((engine, self.addr())),
        ensures
            exists|value: Option<u32>| #[trigger]
                get.ensures((engine, self.addr()), value) && res == match value {
                    Some(code) => Some(
                        match Button::decoded(code) {
                            Ok(button) => button,
                            Err(_) => Button::Unknown,
                        },
                    ),
                    None => None,
                },
    {
        match get(engine, self.as_raw()) {
            Some(code) => match Button::from_code(code) {
                Ok(button) => Some(button),
                Err(_) => Some(Button::Unknown),
            },
            None => None,
        }
    }

    /// Set keyboard modifiers held during the event.
    pub fn set_mods<S>(
        &mut self,
        mods: Mods,
        engine: &mut S,
        set: impl FnOnce(&S, usize, u16) -> S,
    ) -> (res: &mut Self)
        requires
            set.requires((&*old(engine), old(self).addr(), mods.bits)),
        ensures
            *res == *old(self),
            *final(self) == *final(res),
            set.ensures((&*old(engine), old(self).addr(), mods.bits), *final(engine)),
    {
        *engine = set(&*engine, self.as_raw(), mods.bits());
        self
    }

    /// Get keyboard modifiers held during the event.
    #[must_use]
    pub fn mods<S>(&self, engine: &S, get: impl FnOnce(&S, usize) -> u16) -> (res: Mods)
        requires
            get.requires((engine, self.addr())),
        ensures
            exists|value: u16| #[trigger]
                get.ensures((engine, self.addr()), value) && res.bits == value,
    {
        let value = get(engine, self.as_raw());
        Mods::from_bits_retain(value)
    }

    /// Set the event position in surface-space pixels.
    pub fn set_position<S>(
        &mut self,
        position: Position,
        engine: &mut S,
        set: impl FnOnce(&S, usize, Position) -> S,
    ) -> (res: &mut Self)
        requires
            set.requires((&*old(engine), old(self).addr(), position)),
        ensures
            *res == *old(self),
            *final(self) == *final(res),
            set.ensures((&*old(engine), old(self).addr(), position), *final(engine)),
    {
        *engine = set(&*engine, self.as_raw(), position);
        self
    }

    /// Get the event position in surface-space pixels.
    #[must_use]
    pub fn position<S>(
        &self,
        engine: &S,
        get: impl FnOnce(&S, usize) -> Position,
    ) -> (res: Position)
        requires
            get.requires((engine, self.addr())),
        ensures
            exists|value: Position| #[trigger]
                get.ensures((engine, self.addr()), value) && res == value,
    {
        let value = get(engine, self.as_raw());
        value
    }
}

/// A position in surface-space pixels.
///
/// Each coordinate is the bit pattern of a 32-bit IEEE 754 number.
#[derive(Clone, Copy, Debug, PartialEq, Eq, Structural)]
pub struct Position {
    /// The bits of the horizontal coordinate.
    pub x_bits: u32,
    /// The bits of the vertical coordinate.
    pub y_bits: u32,
}

/// Mouse encoder size and geometry context.
///
/// This describes the rendered terminal geometry used to convert surface-space positions into
/// encoded coordinates.
#[derive(Clone, Copy, Debug, PartialEq, Eq, Structural)]
pub struct EncoderSize {
    /// Full screen width in pixels.
    pub screen_width: u32,
    /// Full screen height in pixels.
    pub screen_height: u32,
    /// Cell width in pixels. Must be non-zero.
    pub cell_width: u32,
    /// Cell height in pixels. Must be non-zero.
    pub cell_height: u32,
    /// Top padding in pixels.
    pub padding_top: u32,
    /// Bottom padding in pixels.
    pub padding_bottom: u32,
    /// Right padding in pixels.
    pub padding_right: u32,
    /// Left padding in pixels.
    pub padding_left: u32,
}

/// Mouse tracking mode.
#[derive(Clone, Copy, Debug, PartialEq, Eq, Structural)]
#[non_exhaustive]
pub enum TrackingMode {
    /// Mouse reporting disabled.
    Disabled,
    /// X10 mouse mode.
    X10,
    /// Normal mouse mode (press/release only).
    Normal,
    /// Button-event tracking mode.
    Button,
    /// Any-event tracking mode.
    Any,
}

impl TrackingMode {
    /// The number that stands for this value in the engine's interface.
    pub open spec fn spec_code(self) -> u32 {
        match self {
            TrackingMode::Disabled => 0,
            TrackingMode::X10 => 1,
            TrackingMode::Normal => 2,
            TrackingMode::Button => 3,
            TrackingMode::Any => 4,
        }
    }

    /// The value that `code` stands for; a number that stands for none is an invalid value.
    pub open spec fn decoded(code: u32) -> Result<Self> {
        match code {
            0 => Ok(TrackingMode::Disabled),
            1 => Ok(TrackingMode::X10),
            2 => Ok(TrackingMode::Normal),
            3 => Ok(TrackingMode::Button),
            4 => Ok(TrackingMode::Any),
            _ => Err(Error::InvalidValue),
        }
    }

    /// The number that stands for this value in the engine's interface.
    pub fn code(self) -> (res: u32)
        ensures
            res == self.spec_code(),
    {
        match self {
            TrackingMode::Disabled => 0,
            TrackingMode::X10 => 1,
            TrackingMode::Normal => 2,
            TrackingMode::Button => 3,
            TrackingMode::Any => 4,
        }
    }

    /// The value that `code` stands for.
    pub fn from_code(code: u32) -> (res: Result<Self>)
        ensures
            res == Self::decoded(code),
    {
        match code {
            0 => Ok(TrackingMode::Disabled),
            1 => Ok(TrackingMode::X10),
            2 => Ok(TrackingMode::Normal),
            3 => Ok(TrackingMode::Button),
            4 => Ok(TrackingMode::Any),
            _ => Err(Error::InvalidValue),
        }
    }

    /// Every value has a number of its own, and a number decodes to the value that it stands for
    /// and to nothing else.
    pub proof fn codes_round_trip(self, code: u32)
        ensures
            Self::decoded(self.spec_code()) == Ok::<Self, Error>(self),
            Self::decoded(code) matches Ok(value) ==> value.spec_code() == code,
    {
    }

    /// The engine counts the values from zero on: `Disabled`, `X10`, `Normal`, `Button`, `Any`. No
    /// other number stands for one.
    pub proof fn values_are_counted(self, code: u32)
        ensures
            self is Disabled <==> self.spec_code() == 0,
            self is X10 <==> self.spec_code() == 1,
            self is Normal <==> self.spec_code() == 2,
            self is Button <==> self.spec_code() == 3,
            self is Any <==> self.spec_code() == 4,
            Self::decoded(code) == Ok::<Self, Error>(self) <==> code == self.spec_code(),
            Self::decoded(code) is Ok <==> code < 5,
            Self::decoded(code) is Err ==> Self::decoded(code) == Err::<Self, Error>(
                Error::InvalidValue,
            ),
    {
    }
}

/// Mouse output format.
#[derive(Clone, Copy, Debug, PartialEq, Eq, Structural)]
#[non_exhaustive]
pub enum Format {
    /// X10 format.
    X10,
    /// UTF-8 format.
    Utf8,
    /// SGR format.
    Sgr,
    /// URxvt format.
    Urxvt,
    /// SGR format with pixel positions.
    SgrPixels,
}

impl Format {
    /// The number that stands for this value in the engine's interface.
    pub open spec fn spec_code(self) -> u32 {
        match self {
            Format::X10 => 0,
            Format::Utf8 => 1,
            Format::Sgr => 2,
            Format::Urxvt => 3,
            Format::SgrPixels => 4,
        }
    }

    /// The value that `code` stands for; a number that stands for none is an invalid value.
    pub open spec fn decoded(code: u32) -> Result<Self> {
        match code {
            0 => Ok(Format::X10),
            1 => Ok(Format::Utf8),
            2 => Ok(Format::Sgr),
            3 => Ok(Format::Urxvt),
            4 => Ok(Format::SgrPixels),
            _ => Err(Error::InvalidValue),
        }
    }

    /// The number that stands for this value in the engine's interface.
    pub fn code(self) -> (res: u32)
        ensures
            res == self.spec_code(),
    {
        match self {
            Format::X10 => 0,
            Format::Utf8 => 1,
            Format::Sgr => 2,
            Format::Urxvt => 3,
            Format::SgrPixels => 4,
        }
    }

    /// The value that `code` stands for.
    pub fn from_code(code: u32) -> (res: Result<Self>)
        ensures
            res == Self::decoded(code),
    {
        match code {
            0 => Ok(Format::X10),
            1 => Ok(Format::Utf8),
            2 => Ok(Format::Sgr),
            3 => Ok(Format::Urxvt),
            4 => Ok(Format::SgrPixels),
            _ => Err(Error::InvalidValue),
        }
    }

    /// Every value has a number of its own, and a number decodes to the value that it stands for
    /// and to nothing else.
    pub proof fn codes_round_trip(self, code: u32)
        ensures
            Self::decoded(self.spec_code()) == Ok::<Self, Error>(self),
            Self::decoded(code) matches Ok(value) ==> value.spec_code() == code,
    {
    }

    /// The engine counts the values from zero on: `X10`, `Utf8`, `Sgr`, `Urxvt`, `SgrPixels`. No
    /// other number stands for one.
    pub proof fn values_are_counted(self, code: u32)
        ensures
            self is X10 <==> self.spec_code() == 0,
            self is Utf8 <==> self.spec_code() == 1,
            self is Sgr <==> self.spec_code() == 2,
            self is Urxvt <==> self.spec_code() == 3,
            self is SgrPixels <==> self.spec_code() == 4,
            Self::decoded(code) == Ok::<Self, Error>(self) <==> code == self.spec_code(),
            Self::decoded(code) is Ok <==> code < 5,
            Self::decoded(code) is Err ==> Self::decoded(code) == Err::<Self, Error>(
                Error::InvalidValue,
            ),
    {
    }
}

/// Mouse event action type.
#[derive(Clone, Copy, Debug, PartialEq, Eq, Structural)]
#[non_exhaustive]
pub enum Action {
    /// Mouse button was pressed.
    Press,
    /// Mouse button was released.
    Release,
    /// Mouse moved.
    Motion,
}

impl Action {
    /// The number that stands for this value in the engine's interface.
    pub open spec fn spec_code(self) -> u32 {
        match self {
            Action::Press => 0,
            Action::Release => 1,
            Action::Motion => 2,
        }
    }

    /// The value that `code` stands for; a number that stands for none is an invalid value.
    pub open spec fn decoded(code: u32) -> Result<Self> {
        match code {
            0 => Ok(Action::Press),
            1 => Ok(Action::Release),
            2 => Ok(Action::Motion),
            _ => Err(Error::InvalidValue),
        }
    }

    /// The number that stands for this value in the engine's interface.
    pub fn code(self) -> (res: u32)
        ensures
            res == self.spec_code(),
    {
        match self {
            Action::Press => 0,
            Action::Release => 1,
            Action::Motion => 2,
        }
    }

    /// The value that `code` stands for.
    pub fn from_code(code: u32) -> (res: Result<Self>)
        ensures
            res == Self::decoded(code),
    {
        match code {
            0 => Ok(Action::Press),
            1 => Ok(Action::Release),
            2 => Ok(Action::Motion),
            _ => Err(Error::InvalidValue),
        }
    }

    /// Every value has a number of its own, and a number decodes to the value that it stands for
    /// and to nothing else.
    pub proof fn codes_round_trip(self, code: u32)
        ensures
            Self::decoded(self.spec_code()) == Ok::<Self, Error>(self),
            Self::decoded(code) matches Ok(value) ==> value.spec_code() == code,
    {
    }

    /// The engine counts the values from zero on: `Press`, `Release`, `Motion`. No other number
    /// stands for one.
    pub proof fn values_are_counted(self, code: u32)
        ensures
            self is Press <==> self.spec_code() == 0,
            self is Release <==> self.spec_code() == 1,
            self is Motion <==> self.spec_code() == 2,
            Self::decoded(code) == Ok::<Self, Error>(self) <==> code == self.spec_code(),
            Self::decoded(code) is Ok <==> code < 3,
            Self::decoded(code) is Err ==> Self::decoded(code) == Err::<Self, Error>(
                Error::InvalidValue,
            ),
    {
    }
}

/// Mouse button identity.
#[derive(Clone, Copy, Debug, PartialEq, Eq, Structural)]
#[non_exhaustive]
pub enum Button {
    /// A button that is not known.
    Unknown,
    /// The left button.
    Left,
    /// The right button.
    Right,
    /// The middle button.
    Middle,
    /// Button 4.
    Four,
    /// Button 5.
    Five,
    /// Button 6.
    Six,
    /// Button 7.
    Seven,
    /// Button 8.
    Eight,
    /// Button 9.
    Nine,
    /// Button 10.
    Ten,
    /// Button 11.
    Eleven,
}

impl Button {
    /// The number that stands for this value in the engine's interface.
    pub open spec fn spec_code(self) -> u32 {
        match self {
            Button::Unknown => 0,
            Button::Left => 1,
            Button::Right => 2,
            Button::Middle => 3,
            Button::Four => 4,
            Button::Five => 5,
            Button::Six => 6,
            Button::Seven => 7,
            Button::Eight => 8,
            Button::Nine => 9,
            Button::Ten => 10,
            Button::Eleven => 11,
        }
    }

    /// The value that `code` stands for; a number that stands for none is an invalid value.
    pub open spec fn decoded(code: u32) -> Result<Self> {
        match code {
            0 => Ok(Button::Unknown),
            1 => Ok(Button::Left),
            2 => Ok(Button::Right),
            3 => Ok(Button::Middle),
            4 => Ok(Button::Four),
            5 => Ok(Button::Five),
            6 => Ok(Button::Six),
            7 => Ok(Button::Seven),
            8 => Ok(Button::Eight),
            9 => Ok(Button::Nine),
            10 => Ok(Button::Ten),
            11 => Ok(Button::Eleven),
            _ => Err(Error::InvalidValue),
        }
    }

    /// The number that stands for this value in the engine's interface.
    pub fn code(self) -> (res: u32)
        ensures
            res == self.spec_code(),
    {
        match self {
            Button::Unknown => 0,
            Button::Left => 1,
            Button::Right => 2,
            Button::Middle => 3,
            Button::Four => 4,
            Button::Five => 5,
            Button::Six => 6,
            Button::Seven => 7,
            Button::Eight => 8,
            Button::Nine => 9,
            Button::Ten => 10,
            Button::Eleven => 11,
        }
    }

    /// The value that `code` stands for.
    pub fn from_code(code: u32) -> (res: Result<Self>)
        ensures
            res == Self::decoded(code),
    {
        match code {
            0 => Ok(Button::Unknown),
            1 => Ok(Button::Left),
            2 => Ok(Button::Right),
            3 => Ok(Button::Middle),
            4 => Ok(Button::Four),
            5 => Ok(Button::Five),
            6 => Ok(Button::Six),
            7 => Ok(Button::Seven),
            8 => Ok(Button::Eight),
            9 => Ok(Button::Nine),
            10 => Ok(Button::Ten),
            11 => Ok(Button::Eleven),
            _ => Err(Error::InvalidValue),
        }
    }

    /// Every value has a number of its own, and a number decodes to the value that it stands for
    /// and to nothing else.
    pub proof fn codes_round_trip(self, code: u32)
        ensures
            Self::decoded(self.spec_code()) == Ok::<Self, Error>(self),
            Self::decoded(code) matches Ok(value) ==> value.spec_code() == code,
    {
    }

    /// The engine counts the values from zero on: `Unknown`, `Left`, `Right`, `Middle`, `Four`,
    /// `Five`, `Six`, `Seven`, `Eight`, `Nine`, `Ten`, `Eleven`. No other number stands for one.
    pub proof fn values_are_counted(self, code: u32)
        ensures
            self is Unknown <==> self.spec_code() == 0,
            self is Left <==> self.spec_code() == 1,
            self is Right <==> self.spec_code() == 2,
            self is Middle <==> self.spec_code() == 3,
            self is Four <==> self.spec_code() == 4,
            self is Five <==> self.spec_code() == 5,
            self is Six <==> self.spec_code() == 6,
            self is Seven <==> self.spec_code() == 7,
            self is Eight <==> self.spec_code() == 8,
            self is Nine <==> self.spec_code() == 9,
            self is Ten <==> self.spec_code() == 10,
            self is Eleven <==> self.spec_code() == 11,
            Self::decoded(code) == Ok::<Self, Error>(self) <==> code == self.spec_code(),
            Self::decoded(code) is Ok <==> code < 12,
            Self::decoded(code) is Err ==> Self::decoded(code) == Err::<Self, Error>(
                Error::InvalidValue,
            ),
    {
    }
}

} // verus!
