//! Encoding key events into terminal escape sequences.
//!
//! Supports both legacy encoding as well as Kitty Keyboard Protocol.
//!
//! # Basic usage
//!
//!  1. Create an encoder with [`Encoder::new`].
//!  2. Configure it with the various `Encoder::set_*` methods, or with
//!     [`Encoder::set_options_from_terminal`] if there is a [`Terminal`].
//!  3. For each key event, create an [`Event`] (or reuse one), set its properties, and encode it
//!     with [`Encoder::encode_to_vec`] or [`Encoder::encode`].
use crate::buffer::{appended, encode_to_buf, encode_to_vec, encodes, writes, written, BufReply};
use crate::error::{Error, Result};
use crate::memory::{created, new_object, Allocator, NewReply, Object, DEFAULT_ALLOCATOR};
use crate::terminal::Terminal;
use crate::text::char_from_u32;
use vstd::prelude::*;

verus! {

/// Key encoder that converts key events into terminal escape sequences.
#[derive(Debug)]
pub struct Encoder {
    inner: Object,
}

impl Encoder {
    /// The address of the key encoder.
    pub closed spec fn addr(&self) -> usize {
        self.inner.addr()
    }

    /// The address that a constructor's result holds, or its error.
    pub open spec fn addr_of(res: Result<Self>) -> Result<usize> {
        match res {
            Ok(value) => Ok(value.addr()),
            Err(e) => Err(e),
        }
    }

    /// Create a new key encoder.
    pub fn new(create: impl FnOnce(usize) -> NewReply) -> (res: Result<Self>)
        requires
            create.requires((DEFAULT_ALLOCATOR,)),
        ensures
            created(create, DEFAULT_ALLOCATOR, Self::addr_of(res)),
    {
        Self::new_inner(DEFAULT_ALLOCATOR, create)
    }

    /// Create a new key encoder with a custom allocator.
    pub fn new_with_alloc(
        alloc: &Allocator,
        create: impl FnOnce(usize) -> NewReply,
    ) -> (res: Result<Self>)
        requires
            create.requires((alloc.addr(),)),
        ensures
            created(create, alloc.addr(), Self::addr_of(res)),
    {
        Self::new_inner(alloc.to_raw(), create)
    }

    fn new_inner<F: FnOnce(usize) -> NewReply>(alloc: usize, create: F) -> (res: Result<Self>)
        requires
            create.requires((alloc,)),
        ensures
            created(create, alloc, Self::addr_of(res)),
    {
        match new_object(alloc, create) {
            Ok(inner) => Ok(Encoder { inner }),
            Err(e) => Err(e),
        }
    }

    /// The address of the key encoder.
    pub fn as_raw(&self) -> (res: usize)
        ensures
            res == self.addr(),
    {
        self.inner.as_raw()
    }

    /// Encode a key event into a terminal escape sequence.
    ///
    /// The bytes are appended to `vec`, which grows if more capacity is needed. Not all key events
    /// produce output.
    pub fn encode_to_vec<S>(
        &mut self,
        event: &Event,
        vec: &mut Vec<u8>,
        engine: &mut S,
        encode: impl Fn(&S, usize, usize, usize) -> (S, BufReply<u8>),
    ) -> (res: Result<()>)
        requires
            encodes(encode, old(self).addr(), event.addr(), old(vec)@.len()),
        ensures
            *final(self) == *old(self),
            exists|room: usize, first: (S, BufReply<u8>)| #[trigger]
                encode.ensures((&*old(engine), old(self).addr(), event.addr(), room), first)
                    && appended(
                    encode,
                    old(self).addr(),
                    event.addr(),
                    first,
                    old(vec)@,
                    final(vec)@,
                    *final(engine),
                    res,
                ),
    {
        encode_to_vec(self.as_raw(), event.as_raw(), vec, engine, encode)
    }

    /// Encode a key event into a terminal escape sequence.
    ///
    /// The bytes are written to the front of the buffer; the result is how many they are. Not all
    /// key events produce output.
    ///
    /// If the buffer is too small, this returns `OutOfSpace` with the size that is needed.
    pub fn encode<S>(
        &mut self,
        event: &Event,
        buf: &mut [u8],
        engine: &mut S,
        encode: impl FnOnce(&S, usize, usize, usize) -> (S, BufReply<u8>),
    ) -> (res: Result<usize>)
        requires
            writes(
                encode,
                old(self).addr(),
                event.addr(),
                *old(engine),
                old(buf)@.len() as usize,
            ),
        ensures
            *final(self) == *old(self),
            written(
                encode,
                old(self).addr(),
                event.addr(),
                *old(engine),
                old(buf)@,
                final(buf)@,
                *final(engine),
                res,
            ),
    {
        encode_to_buf(self.as_raw(), event.as_raw(), buf, engine, encode)
    }

    /// Set encoder options from a terminal's current state.
    ///
    /// The engine reads the terminal's current modes and flags and applies them to the encoder's
    /// options: cursor key application mode, keypad mode, alt escape prefix, modifyOtherKeys state,
    /// and Kitty keyboard protocol flags.
    ///
    /// The `macos_option_as_alt` option cannot be determined from terminal state and is reset to
    /// [`OptionAsAlt::False`] by this call. Use [`Encoder::set_macos_option_as_alt`] afterward if
    /// needed.
    pub fn set_options_from_terminal<S, H>(
        &mut self,
        terminal: &Terminal<H>,
        engine: &mut S,
        sync: impl FnOnce(&S, usize, usize) -> S,
    ) -> (res: &mut Self)
        requires
            sync.requires((&*old(engine), old(self).addr(), terminal.addr())),
        ensures
            *res == *old(self),
            *final(self) == *final(res),
            sync.ensures((&*old(engine), old(self).addr(), terminal.addr()), *final(engine)),
    {
        *engine = sync(&*engine, self.as_raw(), terminal.as_raw());
        self
    }

    /// Set terminal DEC mode 1: cursor key application mode.
    pub fn set_cursor_key_application<S>(
        &mut self,
        value: bool,
        engine: &mut S,
        setopt: impl FnOnce(&S, usize, EncoderOption, bool) -> S,
    ) -> (res: &mut Self)
        requires
            setopt.requires(
                (&*old(engine), old(self).addr(), EncoderOption::CursorKeyApplication, value),
            ),
        ensures
            *res == *old(self),
            *final(self) == *final(res),
            setopt.ensures(
                (&*old(engine), old(self).addr(), EncoderOption::CursorKeyApplication, value),
                *final(engine),
            ),
    {
        *engine = setopt(&*engine, self.as_raw(), EncoderOption::CursorKeyApplication, value);
        self
    }

    /// Set terminal DEC mode 66: keypad key application mode.
    pub fn set_keypad_key_application<S>(
        &mut self,
        value: bool,
        engine: &mut S,
        setopt: impl FnOnce(&S, usize, EncoderOption, bool) -> S,
    ) -> (res: &mut Self)
        requires
            setopt.requires(
                (&*old(engine), old(self).addr(), EncoderOption::KeypadKeyApplication, value),
            ),
        ensures
            *res == *old(self),
            *final(self) == *final(res),
            setopt.ensures(
                (&*old(engine), old(self).addr(), EncoderOption::KeypadKeyApplication, value),
                *final(engine),
            ),
    {
        *engine = setopt(&*engine, self.as_raw(), EncoderOption::KeypadKeyApplication, value);
        self
    }

    /// Set terminal DEC mode 1035: ignore keypad with numlock.
    pub fn set_ignore_keypad_with_numlock<S>(
        &mut self,
        value: bool,
        engine: &mut S,
        setopt: impl FnOnce(&S, usize, EncoderOption, bool) -> S,
    ) -> (res: &mut Self)
        requires
            setopt.requires(
                (&*old(engine), old(self).addr(), EncoderOption::IgnoreKeypadWithNumlock, value),
            ),
        ensures
            *res == *old(self),
            *final(self) == *final(res),
            setopt.ensures(
                (&*old(engine), old(self).addr(), EncoderOption::IgnoreKeypadWithNumlock, value),
                *final(engine),
            ),
    {
        *engine = setopt(&*engine, self.as_raw(), EncoderOption::IgnoreKeypadWithNumlock, value);
        self
    }

    /// Set terminal DEC mode 1036: alt sends escape prefix.
    pub fn set_alt_esc_prefix<S>(
        &mut self,
        value: bool,
        engine: &mut S,
        setopt: impl FnOnce(&S, usize, EncoderOption, bool) -> S,
    ) -> (res: &mut Self)
        requires
            setopt.requires((&*old(engine), old(self).addr(), EncoderOption::AltEscPrefix, value)),
        ensures
            *res == *old(self),
            *final(self) == *final(res),
            setopt.ensures(
                (&*old(engine), old(self).addr(), EncoderOption::AltEscPrefix, value),
                *final(engine),
            ),
    {
        *engine = setopt(&*engine, self.as_raw(), EncoderOption::AltEscPrefix, value);
        self
    }

    /// Set xterm modifyOtherKeys mode 2.
    pub fn set_modify_other_keys_state_2<S>(
        &mut self,
        value: bool,
        engine: &mut S,
        setopt: impl FnOnce(&S, usize, EncoderOption, bool) -> S,
    ) -> (res: &mut Self)
        requires
            setopt.requires(
                (&*old(engine), old(self).addr(), EncoderOption::ModifyOtherKeysState2, value),
            ),
        ensures
            *res == *old(self),
            *final(self) == *final(res),
            setopt.ensures(
                (&*old(engine), old(self).addr(), EncoderOption::ModifyOtherKeysState2, value),
                *final(engine),
            ),
    {
        *engine = setopt(&*engine, self.as_raw(), EncoderOption::ModifyOtherKeysState2, value);
        self
    }

    /// Set Kitty keyboard protocol flags.
    pub fn set_kitty_flags<S>(
        &mut self,
        value: KittyKeyFlags,
        engine: &mut S,
        setopt: impl FnOnce(&S, usize, EncoderOption, u8) -> S,
    ) -> (res: &mut Self)
        requires
            setopt.requires(
                (&*old(engine), old(self).addr(), EncoderOption::KittyFlags, value.bits),
            ),
        ensures
            *res == *old(self),
            *final(self) == *final(res),
            setopt.ensures(
                (&*old(engine), old(self).addr(), EncoderOption::KittyFlags, value.bits),
                *final(engine),
            ),
    {
        *engine = setopt(&*engine, self.as_raw(), EncoderOption::KittyFlags, value.bits());
        self
    }

    /// Set macOS option-as-alt setting.
    pub fn set_macos_option_as_alt<S>(
        &mut self,
        value: OptionAsAlt,
        engine: &mut S,
        setopt: impl FnOnce(&S, usize, EncoderOption, u32) -> S,
    ) -> (res: &mut Self)
        requires
            setopt.requires(
                (&*old(engine), old(self).addr(), EncoderOption::MacosOptionAsAlt, value.spec_code()),
            ),
        ensures
            *res == *old(self),
            *final(self) == *final(res),
            setopt.ensures(
                (&*old(engine), old(self).addr(), EncoderOption::MacosOptionAsAlt, value.spec_code()),
                *final(engine),
            ),
    {
        *engine = setopt(&*engine, self.as_raw(), EncoderOption::MacosOptionAsAlt, value.code());
        self
    }
}

/// The options of a key encoder.
#[derive(Clone, Copy, Debug, PartialEq, Eq, Structural)]
pub enum EncoderOption {
    /// Terminal DEC mode 1: cursor key application mode.
    CursorKeyApplication,
    /// Terminal DEC mode 66: keypad key application mode.
    KeypadKeyApplication,
    /// Terminal DEC mode 1035: ignore keypad with numlock.
    IgnoreKeypadWithNumlock,
    /// Terminal DEC mode 1036: alt sends escape prefix.
    AltEscPrefix,
    /// xterm modifyOtherKeys mode 2.
    ModifyOtherKeysState2,
    /// Kitty keyboard protocol flags.
    KittyFlags,
    /// macOS option-as-alt setting.
    MacosOptionAsAlt,
}

/// Keyboard input event containing information about the physical key pressed, modifiers, and
/// generated text.
#[derive(Debug)]
pub struct Event {
    inner: Object,
    text: Option<String>,
}

impl Event {
    /// The text that the event keeps.
    pub closed spec fn text(&self) -> Option<Seq<char>> {
        match self.text {
            Some(text) => Some(text@),
            None => None,
        }
    }

    /// The address of the key event.
    pub closed spec fn addr(&self) -> usize {
        self.inner.addr()
    }

    /// The address that a constructor's result holds, or its error.
    pub open spec fn addr_of(res: Result<Self>) -> Result<usize> {
        match res {
            Ok(value) => Ok(value.addr()),
            Err(e) => Err(e),
        }
    }

    /// Create a new key event.
    pub fn new(create: impl FnOnce(usize) -> NewReply) -> (res: Result<Self>)
        requires
            create.requires((DEFAULT_ALLOCATOR,)),
        ensures
            created(create, DEFAULT_ALLOCATOR, Self::addr_of(res)),
            res matches Ok(event) ==> event.text() is None,
    {
        Self::new_inner(DEFAULT_ALLOCATOR, create)
    }

    /// Create a new key event with a custom allocator.
    pub fn new_with_alloc(
        alloc: &Allocator,
        create: impl FnOnce(usize) -> NewReply,
    ) -> (res: Result<Self>)
        requires
            create.requires((alloc.addr(),)),
        ensures
            created(create, alloc.addr(), Self::addr_of(res)),
            res matches Ok(event) ==> event.text() is None,
    {
        Self::new_inner(alloc.to_raw(), create)
    }

    fn new_inner<F: FnOnce(usize) -> NewReply>(alloc: usize, create: F) -> (res: Result<Self>)
        requires
            create.requires((alloc,)),
        ensures
            created(create, alloc, Self::addr_of(res)),
            res matches Ok(event) ==> event.text() is None,
    {
        match new_object(alloc, create) {
            Ok(inner) => Ok(Event { inner, text: None }),
            Err(e) => Err(e),
        }
    }

    /// The address of the key event.
    pub fn as_raw(&self) -> (res: usize)
        ensures
            res == self.addr(),
    {
        self.inner.as_raw()
    }

    /// Set the key action (press, release, repeat).
    pub fn set_action<S>(
        &mut self,
        action: Action,
        engine: &mut S,
        set: impl FnOnce(&S, usize, u32) -> S,
    ) -> (res: &mut Self)
        requires
            set.requires((&*old(engine), old(self).addr(), action.spec_code())),
        ensures
            *res == *old(self),
            *final(self) == *final(res),
            set.ensures((&*old(engine), old(self).addr(), action.spec_code()), *final(engine)),
    {
        *engine = set(&*engine, self.as_raw(), action.code());
        self
    }

    /// Get the key action (press, release, repeat).
    ///
    /// A number that stands for no action counts as a press.
    #[must_use]
    pub fn action<S>(&self, engine: &S, get: impl FnOnce(&S, usize) -> u32) -> (res: Action)
        requires
            get.requires((engine, self.addr())),
        ensures
            exists|value: u32| #[trigger]
                get.ensures((engine, self.addr()), value) && res == match Action::decoded(value) {
                    Ok(action) => action,
                    Err(_) => Action::Press,
                },
    {
        let value = get(engine, self.as_raw());
        match Action::from_code(value) {
            Ok(action) => action,
            Err(_) => Action::Press,
        }
    }

    /// Set the physical key code.
    pub fn set_key<S>(
        &mut self,
        key: Key,
        engine: &mut S,
        set: impl FnOnce(&S, usize, u32) -> S,
    ) -> (res: &mut Self)
        requires
            set.requires((&*old(engine), old(self).addr(), key.spec_code())),
        ensures
            *res == *old(self),
            *final(self) == *final(res),
            set.ensures((&*old(engine), old(self).addr(), key.spec_code()), *final(engine)),
    {
        *engine = set(&*engine, self.as_raw(), key.code());
        self
    }

    /// Get the physical key code.
    ///
    /// A number that stands for no key counts as an unidentified one.
    #[must_use]
    pub fn key<S>(&self, engine: &S, get: impl FnOnce(&S, usize) -> u32) -> (res: Key)
        requires
            get.requires((engine, self.addr())),
        ensures
            exists|value: u32| #[trigger]
                get.ensures((engine, self.addr()), value) && res == match Key::decoded(value) {
                    Ok(key) => key,
                    Err(_) => Key::Unidentified,
                },
    {
        let value = get(engine, self.as_raw());
        match Key::from_code(value) {
            Ok(key) => key,
            Err(_) => Key::Unidentified,
        }
    }

    /// Set the modifier keys bitmask.
    pub fn set_mods<S>(
        &mut self,
        mods: Mods,
        engine: &mut S,
        set: impl FnOnce(&S, usize, u16) -> S,
    ) -> (res: &mut Self)
        requires
            set.requires((&*old(engine), old(self).addr(), mods.bits)),
        ensures
            *res == *old(self),
            *final(self) == *final(res),
            set.ensures((&*old(engine), old(self).addr(), mods.bits), *final(engine)),
    {
        *engine = set(&*engine, self.as_raw(), mods.bits());
        self
    }

    /// Get the modifier keys bitmask.
    #[must_use]
    pub fn mods<S>(&self, engine: &S, get: impl FnOnce(&S, usize) -> u16) -> (res: Mods)
        requires
            get.requires((engine, self.addr())),
        ensures
            exists|value: u16| #[trigger]
                get.ensures((engine, self.addr()), value) && res.bits == value,
    {
        let value = get(engine, self.as_raw());
        Mods::from_bits_retain(value)
    }

    /// Set the consumed modifiers bitmask.
    pub fn set_consumed_mods<S>(
        &mut self,
        mods: Mods,
        engine: &mut S,
        set: impl FnOnce(&S, usize, u16) -> S,
    ) -> (res: &mut Self)
        requires
            set.requires((&*old(engine), old(self).addr(), mods.bits)),
        ensures
            *res == *old(self),
            *final(self) == *final(res),
            set.ensures((&*old(engine), old(self).addr(), mods.bits), *final(engine)),
    {
        *engine = set(&*engine, self.as_raw(), mods.bits());
        self
    }

    /// Get the consumed modifiers bitmask.
    #[must_use]
    pub fn consumed_mods<S>(&self, engine: &S, get: impl FnOnce(&S, usize) -> u16) -> (res: Mods)
        requires
            get.requires((engine, self.addr())),
        ensures
            exists|value: u16| #[trigger]
                get.ensures((engine, self.addr()), value) && res.bits == value,
    {
        let value = get(engine, self.as_raw());
        Mods::from_bits_retain(value)
    }

    /// Set whether the key event is part of a composition sequence.
    pub fn set_composing<S>(
        &mut self,
        composing: bool,
        engine: &mut S,
        set: impl FnOnce(&S, usize, bool) -> S,
    ) -> (res: &mut Self)
        requires
            set.requires((&*old(engine), old(self).addr(), composing)),
        ensures
            *res == *old(self),
            *final(self) == *final(res),
            set.ensures((&*old(engine), old(self).addr(), composing), *final(engine)),
    {
        *engine = set(&*engine, self.as_raw(), composing);
        self
    }

    /// Get whether the key event is part of a composition sequence.
    #[must_use]
    pub fn is_composing<S>(&self, engine: &S, get: impl FnOnce(&S, usize) -> bool) -> (res: bool)
        requires
            get.requires((engine, self.addr())),
        ensures
            exists|value: bool| #[trigger]
                get.ensures((engine, self.addr()), value) && res == value,
    {
        let value = get(engine, self.as_raw());
        value
    }

    /// Set the unshifted Unicode codepoint.
    pub fn set_unshifted_codepoint<S>(
        &mut self,
        codepoint: char,
        engine: &mut S,
        set: impl FnOnce(&S, usize, u32) -> S,
    ) -> (res: &mut Self)
        requires
            set.requires((&*old(engine), old(self).addr(), codepoint as u32)),
        ensures
            *res == *old(self),
            *final(self) == *final(res),
            set.ensures((&*old(engine), old(self).addr(), codepoint as u32), *final(engine)),
    {
        *engine = set(&*engine, self.as_raw(), codepoint as u32);
        self
    }

    /// Get the unshifted Unicode codepoint.
    #[must_use]
    pub fn unshifted_codepoint<S>(
        &self,
        engine: &S,
        get: impl FnOnce(&S, usize) -> u32,
    ) -> (res: char)
        requires
            get.requires((engine, self.addr())),
            forall|value: u32| #[trigger]
                get.ensures((engine, self.addr()), value) ==> vstd::utf8::is_scalar(value),
        ensures
            get.ensures((engine, self.addr()), res as u32),
    {
        match char_from_u32(get(engine, self.as_raw())) {
            Some(codepoint) => codepoint,
            None => '\0',
        }
    }

    /// Set the UTF-8 text generated by the key event.
    ///
    /// The event keeps the text, since the engine may use it without any rigid lifetime
    /// guarantees.
    pub fn set_utf8<S>(
        &mut self,
        text: Option<String>,
        engine: &mut S,
        set: impl FnOnce(&S, usize, Option<&str>) -> S,
    ) -> (res: &mut Self)
        requires
            forall|arg: Option<&str>|
                same_text(arg, text) ==> #[trigger] set.requires(
                    (&*old(engine), old(self).addr(), arg),
                ),
        ensures
            res.addr() == old(self).addr(),
            res.text() == match text {
                Some(text) => Some(text@),
                None => None,
            },
            *final(self) == *final(res),
            exists|arg: Option<&str>| #[trigger]
                set.ensures((&*old(engine), old(self).addr(), arg), *final(engine)) && same_text(
                    arg,
                    text,
                ),
    {
        self.text = text;
        let raw: usize = self.as_raw();
        assert(raw == old(self).addr());
        match &self.text {
            Some(text) => {
                let arg = Some(text.as_str());
                assert(same_text(arg, self.text));
                *engine = set(&*engine, raw, arg)
            },
            None => {
                assert(same_text(None, self.text));
                *engine = set(&*engine, raw, None)
            },
        }
        self
    }

    /// Get the UTF-8 text generated by the key event.
    pub fn utf8(&self) -> (res: Option<&str>)
        ensures
            self.text() == match res {
                Some(text) => Some(text@),
                None => None,
            },
    {
        match &self.text {
            Some(text) => Some(text.as_str()),
            None => None,
        }
    }
}

/// The text that is handed to the engine.
pub open spec fn text_of(text: Option<&str>) -> Option<Seq<char>> {
    match text {
        Some(text) => Some(text@),
        None => None,
    }
}

/// What the engine keeps of a key event.
pub ghost struct EventState {
    /// The number of the action.
    pub action: u32,
    /// The number of the key.
    pub key: u32,
    /// The bits of the modifiers.
    pub mods: u16,
    /// The bits of the consumed modifiers.
    pub consumed_mods: u16,
    /// Whether the event is part of a composition sequence.
    pub composing: bool,
    /// The unshifted codepoint.
    pub unshifted_codepoint: u32,
    /// The text.
    pub text: Option<Seq<char>>,
}

/// `get` answers with `field` of what the engine keeps of an event, which `kept` says.
pub open spec fn reads<S, T, F: FnOnce(&S, usize) -> T>(
    get: F,
    kept: spec_fn(S, usize) -> EventState,
    field: spec_fn(EventState) -> T,
) -> bool {
    forall|engine: &S, event: usize, value: T| #[trigger]
        get.ensures((engine, event), value) ==> value == field(kept(*engine, event))
}

/// `set` changes what the engine keeps of an event as `put` says, and nothing else of it.
pub open spec fn stores<S, T, F: FnOnce(&S, usize, T) -> S>(
    set: F,
    kept: spec_fn(S, usize) -> EventState,
    put: spec_fn(EventState, T) -> EventState,
) -> bool {
    forall|engine: &S, event: usize, value: T, after: S| #[trigger]
        set.ensures((engine, event, value), after) ==> kept(after, event) == put(
            kept(*engine, event),
            value,
        )
}

/// `set` changes the text that the engine keeps of an event, and nothing else of it.
pub open spec fn stores_text<S, F: FnOnce(&S, usize, Option<&str>) -> S>(
    set: F,
    kept: spec_fn(S, usize) -> EventState,
) -> bool {
    forall|engine: &S, event: usize, text: Option<&str>, after: S| #[trigger]
        set.ensures((engine, event, text), after) ==> kept(after, event) == (EventState {
            text: text_of(text),
            ..kept(*engine, event)
        })
}

/// Setting the text of an event leaves the rest of it as it was: every other getter answers after
/// [`Event::set_utf8`] as it did before, if the engine keeps the properties of an event apart.
pub proof fn the_text_leaves_the_rest_alone<
    S,
    U: FnOnce(&S, usize, Option<&str>) -> S,
    A: Fn(&S, usize) -> u32,
    K: Fn(&S, usize) -> u32,
    M: Fn(&S, usize) -> u16,
    C: Fn(&S, usize) -> u16,
    O: Fn(&S, usize) -> bool,
    P: Fn(&S, usize) -> u32,
>(
    kept: spec_fn(S, usize) -> EventState,
    set_utf8: U,
    get_action: A,
    get_key: K,
    get_mods: M,
    get_consumed_mods: C,
    get_composing: O,
    get_unshifted_codepoint: P,
    event: usize,
    before: S,
    text: Option<&str>,
    after: S,
)
    requires
        stores_text(set_utf8, kept),
        reads(get_action, kept, |e: EventState| e.action),
        reads(get_key, kept, |e: EventState| e.key),
        reads(get_mods, kept, |e: EventState| e.mods),
        reads(get_consumed_mods, kept, |e: EventState| e.consumed_mods),
        reads(get_composing, kept, |e: EventState| e.composing),
        reads(get_unshifted_codepoint, kept, |e: EventState| e.unshifted_codepoint),
        set_utf8.ensures((&before, event, text), after),
    ensures
        kept(after, event).text == text_of(text),
        forall|a: u32, b: u32| #[trigger]
            get_action.ensures((&before, event), a) && #[trigger] get_action.ensures(
                (&after, event),
                b,
            ) ==> a == b,
        forall|a: u32, b: u32| #[trigger]
            get_key.ensures((&before, event), a) && #[trigger] get_key.ensures((&after, event), b)
                ==> a == b,
        forall|a: u16, b: u16| #[trigger]
            get_mods.ensures((&before, event), a) && #[trigger] get_mods.ensures((&after, event), b)
                ==> a == b,
        forall|a: u16, b: u16| #[trigger]
            get_consumed_mods.ensures((&before, event), a)
                && #[trigger] get_consumed_mods.ensures((&after, event), b) ==> a == b,
        forall|a: bool, b: bool| #[trigger]
            get_composing.ensures((&before, event), a) && #[trigger] get_composing.ensures(
                (&after, event),
                b,
            ) ==> a == b,
        forall|a: u32, b: u32| #[trigger]
            get_unshifted_codepoint.ensures((&before, event), a)
                && #[trigger] get_unshifted_codepoint.ensures((&after, event), b) ==> a == b,
{
}

/// The two are the same text, or both are absent.
pub open spec fn same_text(a: Option<&str>, b: Option<String>) -> bool {
    match (a, b) {
        (Some(a), Some(b)) => a@ == b@,
        (None, None) => true,
        _ => false,
    }
}

/// A physical key, named after the W3C UI Events codes.
#[derive(Clone, Copy, Debug, PartialEq, Eq, Structural)]
#[non_exhaustive]
#[allow(missing_docs)]
pub enum Key {
    Unidentified,
    Backquote,
    Backslash,
    BracketLeft,
    BracketRight,
    Comma,
    Digit0,
    Digit1,
    Digit2,
    Digit3,
    Digit4,
    Digit5,
    Digit6,
    Digit7,
    Digit8,
    Digit9,
    Equal,
    IntlBackslash,
    IntlRo,
    IntlYen,
    A,
    B,
    C,
    D,
    E,
    F,
    G,
    H,
    I,
    J,
    K,
    L,
    M,
    N,
    O,
    P,
    Q,
    R,
    S,
    T,
    U,
    V,
    W,
    X,
    Y,
    Z,
    Minus,
    Period,
    Quote,
    Semicolon,
    Slash,
    AltLeft,
    AltRight,
    Backspace,
    CapsLock,
    ContextMenu,
    ControlLeft,
    ControlRight,
    Enter,
    MetaLeft,
    MetaRight,
    ShiftLeft,
    ShiftRight,
    Space,
    Tab,
    Convert,
    KanaMode,
    NonConvert,
    Delete,
    End,
    Help,
    Home,
    Insert,
    PageDown,
    PageUp,
    ArrowDown,
    ArrowLeft,
    ArrowRight,
    ArrowUp,
    NumLock,
    Numpad0,
    Numpad1,
    Numpad2,
    Numpad3,
    Numpad4,
    Numpad5,
    Numpad6,
    Numpad7,
    Numpad8,
    Numpad9,
    NumpadAdd,
    NumpadBackspace,
    NumpadClear,
    NumpadClearEntry,
    NumpadComma,
    NumpadDecimal,
    NumpadDivide,
    NumpadEnter,
    NumpadEqual,
    NumpadMemoryAdd,
    NumpadMemoryClear,
    NumpadMemoryRecall,
    NumpadMemoryStore,
    NumpadMemorySubtract,
    NumpadMultiply,
    NumpadParenLeft,
    NumpadParenRight,
    NumpadSubtract,
    NumpadSeparator,
    NumpadUp,
    NumpadDown,
    NumpadRight,
    NumpadLeft,
    NumpadBegin,
    NumpadHome,
    NumpadEnd,
    NumpadInsert,
    NumpadDelete,
    NumpadPageUp,
    NumpadPageDown,
    Escape,
    F1,
    F2,
    F3,
    F4,
    F5,
    F6,
    F7,
    F8,
    F9,
    F10,
    F11,
    F12,
    F13,
    F14,
    F15,
    F16,
    F17,
    F18,
    F19,
    F20,
    F21,
    F22,
    F23,
    F24,
    F25,
    Fn,
    FnLock,
    PrintScreen,
    ScrollLock,
    Pause,
    BrowserBack,
    BrowserFavorites,
    BrowserForward,
    BrowserHome,
    BrowserRefresh,
    BrowserSearch,
    BrowserStop,
    Eject,
    LaunchApp1,
    LaunchApp2,
    LaunchMail,
    MediaPlayPause,
    MediaSelect,
    MediaStop,
    MediaTrackNext,
    MediaTrackPrevious,
    Power,
    Sleep,
    AudioVolumeDown,
    AudioVolumeMute,
    AudioVolumeUp,
    WakeUp,
    Copy,
    Cut,
    Paste,
}

impl Key {
    /// The number that stands for this value in the engine's interface.
    pub open spec fn spec_code(self) -> u32 {
        match self {
            Key::Unidentified => 0,
            Key::Backquote => 1,
            Key::Backslash => 2,
            Key::BracketLeft => 3,
            Key::BracketRight => 4,
            Key::Comma => 5,
            Key::Digit0 => 6,
            Key::Digit1 => 7,
            Key::Digit2 => 8,
            Key::Digit3 => 9,
            Key::Digit4 => 10,
            Key::Digit5 => 11,
            Key::Digit6 => 12,
            Key::Digit7 => 13,
            Key::Digit8 => 14,
            Key::Digit9 => 15,
            Key::Equal => 16,
            Key::IntlBackslash => 17,
            Key::IntlRo => 18,
            Key::IntlYen => 19,
            Key::A => 20,
            Key::B => 21,
            Key::C => 22,
            Key::D => 23,
            Key::E => 24,
            Key::F => 25,
            Key::G => 26,
            Key::H => 27,
            Key::I => 28,
            Key::J => 29,
            Key::K => 30,
            Key::L => 31,
            Key::M => 32,
            Key::N => 33,
            Key::O => 34,
            Key::P => 35,
            Key::Q => 36,
            Key::R => 37,
            Key::S => 38,
            Key::T => 39,
            Key::U => 40,
            Key::V => 41,
            Key::W => 42,
            Key::X => 43,
            Key::Y => 44,
            Key::Z => 45,
            Key::Minus => 46,
            Key::Period => 47,
            Key::Quote => 48,
            Key::Semicolon => 49,
            Key::Slash => 50,
            Key::AltLeft => 51,
            Key::AltRight => 52,
            Key::Backspace => 53,
            Key::CapsLock => 54,
            Key::ContextMenu => 55,
            Key::ControlLeft => 56,
            Key::ControlRight => 57,
            Key::Enter => 58,
            Key::MetaLeft => 59,
            Key::MetaRight => 60,
            Key::ShiftLeft => 61,
            Key::ShiftRight => 62,
            Key::Space => 63,
            Key::Tab => 64,
            Key::Convert => 65,
            Key::KanaMode => 66,
            Key::NonConvert => 67,
            Key::Delete => 68,
            Key::End => 69,
            Key::Help => 70,
            Key::Home => 71,
            Key::Insert => 72,
            Key::PageDown => 73,
            Key::PageUp => 74,
            Key::ArrowDown => 75,
            Key::ArrowLeft => 76,
            Key::ArrowRight => 77,
            Key::ArrowUp => 78,
            Key::NumLock => 79,
            Key::Numpad0 => 80,
            Key::Numpad1 => 81,
            Key::Numpad2 => 82,
            Key::Numpad3 => 83,
            Key::Numpad4 => 84,
            Key::Numpad5 => 85,
            Key::Numpad6 => 86,
            Key::Numpad7 => 87,
            Key::Numpad8 => 88,
            Key::Numpad9 => 89,
            Key::NumpadAdd => 90,
            Key::NumpadBackspace => 91,
            Key::NumpadClear => 92,
            Key::NumpadClearEntry => 93,
            Key::NumpadComma => 94,
            Key::NumpadDecimal => 95,
            Key::NumpadDivide => 96,
            Key::NumpadEnter => 97,
            Key::NumpadEqual => 98,
            Key::NumpadMemoryAdd => 99,
            Key::NumpadMemoryClear => 100,
            Key::NumpadMemoryRecall => 101,
            Key::NumpadMemoryStore => 102,
            Key::NumpadMemorySubtract => 103,
            Key::NumpadMultiply => 104,
            Key::NumpadParenLeft => 105,
            Key::NumpadParenRight => 106,
            Key::NumpadSubtract => 107,
            Key::NumpadSeparator => 108,
            Key::NumpadUp => 109,
            Key::NumpadDown => 110,
            Key::NumpadRight => 111,
            Key::NumpadLeft => 112,
            Key::NumpadBegin => 113,
            Key::NumpadHome => 114,
            Key::NumpadEnd => 115,
            Key::NumpadInsert => 116,
            Key::NumpadDelete => 117,
            Key::NumpadPageUp => 118,
            Key::NumpadPageDown => 119,
            Key::Escape => 120,
            Key::F1 => 121,
            Key::F2 => 122,
            Key::F3 => 123,
            Key::F4 => 124,
            Key::F5 => 125,
            Key::F6 => 126,
            Key::F7 => 127,
            Key::F8 => 128,
            Key::F9 => 129,
            Key::F10 => 130,
            Key::F11 => 131,
            Key::F12 => 132,
            Key::F13 => 133,
            Key::F14 => 134,
            Key::F15 => 135,
            Key::F16 => 136,
            Key::F17 => 137,
            Key::F18 => 138,
            Key::F19 => 139,
            Key::F20 => 140,
            Key::F21 => 141,
            Key::F22 => 142,
            Key::F23 => 143,
            Key::F24 => 144,
            Key::F25 => 145,
            Key::Fn => 146,
            Key::FnLock => 147,
            Key::PrintScreen => 148,
            Key::ScrollLock => 149,
            Key::Pause => 150,
            Key::BrowserBack => 151,
            Key::BrowserFavorites => 152,
            Key::BrowserForward => 153,
            Key::BrowserHome => 154,
            Key::BrowserRefresh => 155,
            Key::BrowserSearch => 156,
            Key::BrowserStop => 157,
            Key::Eject => 158,
            Key::LaunchApp1 => 159,
            Key::LaunchApp2 => 160,
            Key::LaunchMail => 161,
            Key::MediaPlayPause => 162,
            Key::MediaSelect => 163,
            Key::MediaStop => 164,
            Key::MediaTrackNext => 165,
            Key::MediaTrackPrevious => 166,
            Key::Power => 167,
            Key::Sleep => 168,
            Key::AudioVolumeDown => 169,
            Key::AudioVolumeMute => 170,
            Key::AudioVolumeUp => 171,
            Key::WakeUp => 172,
            Key::Copy => 173,
            Key::Cut => 174,
            Key::Paste => 175,
        }
    }

    /// The value that `code` stands for; a number that stands for none is an invalid value.
    pub open spec fn decoded(code: u32) -> Result<Self> {
        match code {
            0 => Ok(Key::Unidentified),
            1 => Ok(Key::Backquote),
            2 => Ok(Key::Backslash),
            3 => Ok(Key::BracketLeft),
            4 => Ok(Key::BracketRight),
            5 => Ok(Key::Comma),
            6 => Ok(Key::Digit0),
            7 => Ok(Key::Digit1),
            8 => Ok(Key::Digit2),
            9 => Ok(Key::Digit3),
            10 => Ok(Key::Digit4),
            11 => Ok(Key::Digit5),
            12 => Ok(Key::Digit6),
            13 => Ok(Key::Digit7),
            14 => Ok(Key::Digit8),
            15 => Ok(Key::Digit9),
            16 => Ok(Key::Equal),
            17 => Ok(Key::IntlBackslash),
            18 => Ok(Key::IntlRo),
            19 => Ok(Key::IntlYen),
            20 => Ok(Key::A),
            21 => Ok(Key::B),
            22 => Ok(Key::C),
            23 => Ok(Key::D),
            24 => Ok(Key::E),
            25 => Ok(Key::F),
            26 => Ok(Key::G),
            27 => Ok(Key::H),
            28 => Ok(Key::I),
            29 => Ok(Key::J),
            30 => Ok(Key::K),
            31 => Ok(Key::L),
            32 => Ok(Key::M),
            33 => Ok(Key::N),
            34 => Ok(Key::O),
            35 => Ok(Key::P),
            36 => Ok(Key::Q),
            37 => Ok(Key::R),
            38 => Ok(Key::S),
            39 => Ok(Key::T),
            40 => Ok(Key::U),
            41 => Ok(Key::V),
            42 => Ok(Key::W),
            43 => Ok(Key::X),
            44 => Ok(Key::Y),
            45 => Ok(Key::Z),
            46 => Ok(Key::Minus),
            47 => Ok(Key::Period),
            48 => Ok(Key::Quote),
            49 => Ok(Key::Semicolon),
            50 => Ok(Key::Slash),
            51 => Ok(Key::AltLeft),
            52 => Ok(Key::AltRight),
            53 => Ok(Key::Backspace),
            54 => Ok(Key::CapsLock),
            55 => Ok(Key::ContextMenu),
            56 => Ok(Key::ControlLeft),
            57 => Ok(Key::ControlRight),
            58 => Ok(Key::Enter),
            59 => Ok(Key::MetaLeft),
            60 => Ok(Key::MetaRight),
            61 => Ok(Key::ShiftLeft),
            62 => Ok(Key::ShiftRight),
            63 => Ok(Key::Space),
            64 => Ok(Key::Tab),
            65 => Ok(Key::Convert),
            66 => Ok(Key::KanaMode),
            67 => Ok(Key::NonConvert),
            68 => Ok(Key::Delete),
            69 => Ok(Key::End),
            70 => Ok(Key::Help),
            71 => Ok(Key::Home),
            72 => Ok(Key::Insert),
            73 => Ok(Key::PageDown),
            74 => Ok(Key::PageUp),
            75 => Ok(Key::ArrowDown),
            76 => Ok(Key::ArrowLeft),
            77 => Ok(Key::ArrowRight),
            78 => Ok(Key::ArrowUp),
            79 => Ok(Key::NumLock),
            80 => Ok(Key::Numpad0),
            81 => Ok(Key::Numpad1),
            82 => Ok(Key::Numpad2),
            83 => Ok(Key::Numpad3),
            84 => Ok(Key::Numpad4),
            85 => Ok(Key::Numpad5),
            86 => Ok(Key::Numpad6),
            87 => Ok(Key::Numpad7),
            88 => Ok(Key::Numpad8),
            89 => Ok(Key::Numpad9),
            90 => Ok(Key::NumpadAdd),
            91 => Ok(Key::NumpadBackspace),
            92 => Ok(Key::NumpadClear),
            93 => Ok(Key::NumpadClearEntry),
            94 => Ok(Key::NumpadComma),
            95 => Ok(Key::NumpadDecimal),
            96 => Ok(Key::NumpadDivide),
            97 => Ok(Key::NumpadEnter),
            98 => Ok(Key::NumpadEqual),
            99 => Ok(Key::NumpadMemoryAdd),
            100 => Ok(Key::NumpadMemoryClear),
            101 => Ok(Key::NumpadMemoryRecall),
            102 => Ok(Key::NumpadMemoryStore),
            103 => Ok(Key::NumpadMemorySubtract),
            104 => Ok(Key::NumpadMultiply),
            105 => Ok(Key::NumpadParenLeft),
            106 => Ok(Key::NumpadParenRight),
            107 => Ok(Key::NumpadSubtract),
            108 => Ok(Key::NumpadSeparator),
            109 => Ok(Key::NumpadUp),
            110 => Ok(Key::NumpadDown),
            111 => Ok(Key::NumpadRight),
            112 => Ok(Key::NumpadLeft),
            113 => Ok(Key::NumpadBegin),
            114 => Ok(Key::NumpadHome),
            115 => Ok(Key::NumpadEnd),
            116 => Ok(Key::NumpadInsert),
            117 => Ok(Key::NumpadDelete),
            118 => Ok(Key::NumpadPageUp),
            119 => Ok(Key::NumpadPageDown),
            120 => Ok(Key::Escape),
            121 => Ok(Key::F1),
            122 => Ok(Key::F2),
            123 => Ok(Key::F3),
            124 => Ok(Key::F4),
            125 => Ok(Key::F5),
            126 => Ok(Key::F6),
            127 => Ok(Key::F7),
            128 => Ok(Key::F8),
            129 => Ok(Key::F9),
            130 => Ok(Key::F10),
            131 => Ok(Key::F11),
            132 => Ok(Key::F12),
            133 => Ok(Key::F13),
            134 => Ok(Key::F14),
            135 => Ok(Key::F15),
            136 => Ok(Key::F16),
            137 => Ok(Key::F17),
            138 => Ok(Key::F18),
            139 => Ok(Key::F19),
            140 => Ok(Key::F20),
            141 => Ok(Key::F21),
            142 => Ok(Key::F22),
            143 => Ok(Key::F23),
            144 => Ok(Key::F24),
            145 => Ok(Key::F25),
            146 => Ok(Key::Fn),
            147 => Ok(Key::FnLock),
            148 => Ok(Key::PrintScreen),
            149 => Ok(Key::ScrollLock),
            150 => Ok(Key::Pause),
            151 => Ok(Key::BrowserBack),
            152 => Ok(Key::BrowserFavorites),
            153 => Ok(Key::BrowserForward),
            154 => Ok(Key::BrowserHome),
            155 => Ok(Key::BrowserRefresh),
            156 => Ok(Key::BrowserSearch),
            157 => Ok(Key::BrowserStop),
            158 => Ok(Key::Eject),
            159 => Ok(Key::LaunchApp1),
            160 => Ok(Key::LaunchApp2),
            161 => Ok(Key::LaunchMail),
            162 => Ok(Key::MediaPlayPause),
            163 => Ok(Key::MediaSelect),
            164 => Ok(Key::MediaStop),
            165 => Ok(Key::MediaTrackNext),
            166 => Ok(Key::MediaTrackPrevious),
            167 => Ok(Key::Power),
            168 => Ok(Key::Sleep),
            169 => Ok(Key::AudioVolumeDown),
            170 => Ok(Key::AudioVolumeMute),
            171 => Ok(Key::AudioVolumeUp),
            172 => Ok(Key::WakeUp),
            173 => Ok(Key::Copy),
            174 => Ok(Key::Cut),
            175 => Ok(Key::Paste),
            _ => Err(Error::InvalidValue),
        }
    }

    /// The number that stands for this value in the engine's interface.
    pub fn code(self) -> (res: u32)
        ensures
            res == self.spec_code(),
    {
        match self {
            Key::Unidentified => 0,
            Key::Backquote => 1,
            Key::Backslash => 2,
            Key::BracketLeft => 3,
            Key::BracketRight => 4,
            Key::Comma => 5,
            Key::Digit0 => 6,
            Key::Digit1 => 7,
            Key::Digit2 => 8,
            Key::Digit3 => 9,
            Key::Digit4 => 10,
            Key::Digit5 => 11,
            Key::Digit6 => 12,
            Key::Digit7 => 13,
            Key::Digit8 => 14,
            Key::Digit9 => 15,
            Key::Equal => 16,
            Key::IntlBackslash => 17,
            Key::IntlRo => 18,
            Key::IntlYen => 19,
            Key::A => 20,
            Key::B => 21,
            Key::C => 22,
            Key::D => 23,
            Key::E => 24,
            Key::F => 25,
            Key::G => 26,
            Key::H => 27,
            Key::I => 28,
            Key::J => 29,
            Key::K => 30,
            Key::L => 31,
            Key::M => 32,
            Key::N => 33,
            Key::O => 34,
            Key::P => 35,
            Key::Q => 36,
            Key::R => 37,
            Key::S => 38,
            Key::T => 39,
            Key::U => 40,
            Key::V => 41,
            Key::W => 42,
            Key::X => 43,
            Key::Y => 44,
            Key::Z => 45,
            Key::Minus => 46,
            Key::Period => 47,
            Key::Quote => 48,
            Key::Semicolon => 49,
            Key::Slash => 50,
            Key::AltLeft => 51,
            Key::AltRight => 52,
            Key::Backspace => 53,
            Key::CapsLock => 54,
            Key::ContextMenu => 55,
            Key::ControlLeft => 56,
            Key::ControlRight => 57,
            Key::Enter => 58,
            Key::MetaLeft => 59,
            Key::MetaRight => 60,
            Key::ShiftLeft => 61,
            Key::ShiftRight => 62,
            Key::Space => 63,
            Key::Tab => 64,
            Key::Convert => 65,
            Key::KanaMode => 66,
            Key::NonConvert => 67,
            Key::Delete => 68,
            Key::End => 69,
            Key::Help => 70,
            Key::Home => 71,
            Key::Insert => 72,
            Key::PageDown => 73,
            Key::PageUp => 74,
            Key::ArrowDown => 75,
            Key::ArrowLeft => 76,
            Key::ArrowRight => 77,
            Key::ArrowUp => 78,
            Key::NumLock => 79,
            Key::Numpad0 => 80,
            Key::Numpad1 => 81,
            Key::Numpad2 => 82,
            Key::Numpad3 => 83,
            Key::Numpad4 => 84,
            Key::Numpad5 => 85,
            Key::Numpad6 => 86,
            Key::Numpad7 => 87,
            Key::Numpad8 => 88,
            Key::Numpad9 => 89,
            Key::NumpadAdd => 90,
            Key::NumpadBackspace => 91,
            Key::NumpadClear => 92,
            Key::NumpadClearEntry => 93,
            Key::NumpadComma => 94,
            Key::NumpadDecimal => 95,
            Key::NumpadDivide => 96,
            Key::NumpadEnter => 97,
            Key::NumpadEqual => 98,
            Key::NumpadMemoryAdd => 99,
            Key::NumpadMemoryClear => 100,
            Key::NumpadMemoryRecall => 101,
            Key::NumpadMemoryStore => 102,
            Key::NumpadMemorySubtract => 103,
            Key::NumpadMultiply => 104,
            Key::NumpadParenLeft => 105,
            Key::NumpadParenRight => 106,
            Key::NumpadSubtract => 107,
            Key::NumpadSeparator => 108,
            Key::NumpadUp => 109,
            Key::NumpadDown => 110,
            Key::NumpadRight => 111,
            Key::NumpadLeft => 112,
            Key::NumpadBegin => 113,
            Key::NumpadHome => 114,
            Key::NumpadEnd => 115,
            Key::NumpadInsert => 116,
            Key::NumpadDelete => 117,
            Key::NumpadPageUp => 118,
            Key::NumpadPageDown => 119,
            Key::Escape => 120,
            Key::F1 => 121,
            Key::F2 => 122,
            Key::F3 => 123,
            Key::F4 => 124,
            Key::F5 => 125,
            Key::F6 => 126,
            Key::F7 => 127,
            Key::F8 => 128,
            Key::F9 => 129,
            Key::F10 => 130,
            Key::F11 => 131,
            Key::F12 => 132,
            Key::F13 => 133,
            Key::F14 => 134,
            Key::F15 => 135,
            Key::F16 => 136,
            Key::F17 => 137,
            Key::F18 => 138,
            Key::F19 => 139,
            Key::F20 => 140,
            Key::F21 => 141,
            Key::F22 => 142,
            Key::F23 => 143,
            Key::F24 => 144,
            Key::F25 => 145,
            Key::Fn => 146,
            Key::FnLock => 147,
            Key::PrintScreen => 148,
            Key::ScrollLock => 149,
            Key::Pause => 150,
            Key::BrowserBack => 151,
            Key::BrowserFavorites => 152,
            Key::BrowserForward => 153,
            Key::BrowserHome => 154,
            Key::BrowserRefresh => 155,
            Key::BrowserSearch => 156,
            Key::BrowserStop => 157,
            Key::Eject => 158,
            Key::LaunchApp1 => 159,
            Key::LaunchApp2 => 160,
            Key::LaunchMail => 161,
            Key::MediaPlayPause => 162,
            Key::MediaSelect => 163,
            Key::MediaStop => 164,
            Key::MediaTrackNext => 165,
            Key::MediaTrackPrevious => 166,
            Key::Power => 167,
            Key::Sleep => 168,
            Key::AudioVolumeDown => 169,
            Key::AudioVolumeMute => 170,
            Key::AudioVolumeUp => 171,
            Key::WakeUp => 172,
            Key::Copy => 173,
            Key::Cut => 174,
            Key::Paste => 175,
        }
    }

    /// The value that `code` stands for.
    pub fn from_code(code: u32) -> (res: Result<Self>)
        ensures
            res == Self::decoded(code),
    {
        match code {
            0 => Ok(Key::Unidentified),
            1 => Ok(Key::Backquote),
            2 => Ok(Key::Backslash),
            3 => Ok(Key::BracketLeft),
            4 => Ok(Key::BracketRight),
            5 => Ok(Key::Comma),
            6 => Ok(Key::Digit0),
            7 => Ok(Key::Digit1),
            8 => Ok(Key::Digit2),
            9 => Ok(Key::Digit3),
            10 => Ok(Key::Digit4),
            11 => Ok(Key::Digit5),
            12 => Ok(Key::Digit6),
            13 => Ok(Key::Digit7),
            14 => Ok(Key::Digit8),
            15 => Ok(Key::Digit9),
            16 => Ok(Key::Equal),
            17 => Ok(Key::IntlBackslash),
            18 => Ok(Key::IntlRo),
            19 => Ok(Key::IntlYen),
            20 => Ok(Key::A),
            21 => Ok(Key::B),
            22 => Ok(Key::C),
            23 => Ok(Key::D),
            24 => Ok(Key::E),
            25 => Ok(Key::F),
            26 => Ok(Key::G),
            27 => Ok(Key::H),
            28 => Ok(Key::I),
            29 => Ok(Key::J),
            30 => Ok(Key::K),
            31 => Ok(Key::L),
            32 => Ok(Key::M),
            33 => Ok(Key::N),
            34 => Ok(Key::O),
            35 => Ok(Key::P),
            36 => Ok(Key::Q),
            37 => Ok(Key::R),
            38 => Ok(Key::S),
            39 => Ok(Key::T),
            40 => Ok(Key::U),
            41 => Ok(Key::V),
            42 => Ok(Key::W),
            43 => Ok(Key::X),
            44 => Ok(Key::Y),
            45 => Ok(Key::Z),
            46 => Ok(Key::Minus),
            47 => Ok(Key::Period),
            48 => Ok(Key::Quote),
            49 => Ok(Key::Semicolon),
            50 => Ok(Key::Slash),
            51 => Ok(Key::AltLeft),
            52 => Ok(Key::AltRight),
            53 => Ok(Key::Backspace),
            54 => Ok(Key::CapsLock),
            55 => Ok(Key::ContextMenu),
            56 => Ok(Key::ControlLeft),
            57 => Ok(Key::ControlRight),
            58 => Ok(Key::Enter),
            59 => Ok(Key::MetaLeft),
            60 => Ok(Key::MetaRight),
            61 => Ok(Key::ShiftLeft),
            62 => Ok(Key::ShiftRight),
            63 => Ok(Key::Space),
            64 => Ok(Key::Tab),
            65 => Ok(Key::Convert),
            66 => Ok(Key::KanaMode),
            67 => Ok(Key::NonConvert),
            68 => Ok(Key::Delete),
            69 => Ok(Key::End),
            70 => Ok(Key::Help),
            71 => Ok(Key::Home),
            72 => Ok(Key::Insert),
            73 => Ok(Key::PageDown),
            74 => Ok(Key::PageUp),
            75 => Ok(Key::ArrowDown),
            76 => Ok(Key::ArrowLeft),
            77 => Ok(Key::ArrowRight),
            78 => Ok(Key::ArrowUp),
            79 => Ok(Key::NumLock),
            80 => Ok(Key::Numpad0),
            81 => Ok(Key::Numpad1),
            82 => Ok(Key::Numpad2),
            83 => Ok(Key::Numpad3),
            84 => Ok(Key::Numpad4),
            85 => Ok(Key::Numpad5),
            86 => Ok(Key::Numpad6),
            87 => Ok(Key::Numpad7),
            88 => Ok(Key::Numpad8),
            89 => Ok(Key::Numpad9),
            90 => Ok(Key::NumpadAdd),
            91 => Ok(Key::NumpadBackspace),
            92 => Ok(Key::NumpadClear),
            93 => Ok(Key::NumpadClearEntry),
            94 => Ok(Key::NumpadComma),
            95 => Ok(Key::NumpadDecimal),
            96 => Ok(Key::NumpadDivide),
            97 => Ok(Key::NumpadEnter),
            98 => Ok(Key::NumpadEqual),
            99 => Ok(Key::NumpadMemoryAdd),
            100 => Ok(Key::NumpadMemoryClear),
            101 => Ok(Key::NumpadMemoryRecall),
            102 => Ok(Key::NumpadMemoryStore),
            103 => Ok(Key::NumpadMemorySubtract),
            104 => Ok(Key::NumpadMultiply),
            105 => Ok(Key::NumpadParenLeft),
            106 => Ok(Key::NumpadParenRight),
            107 => Ok(Key::NumpadSubtract),
            108 => Ok(Key::NumpadSeparator),
            109 => Ok(Key::NumpadUp),
            110 => Ok(Key::NumpadDown),
            111 => Ok(Key::NumpadRight),
            112 => Ok(Key::NumpadLeft),
            113 => Ok(Key::NumpadBegin),
            114 => Ok(Key::NumpadHome),
            115 => Ok(Key::NumpadEnd),
            116 => Ok(Key::NumpadInsert),
            117 => Ok(Key::NumpadDelete),
            118 => Ok(Key::NumpadPageUp),
            119 => Ok(Key::NumpadPageDown),
            120 => Ok(Key::Escape),
            121 => Ok(Key::F1),
            122 => Ok(Key::F2),
            123 => Ok(Key::F3),
            124 => Ok(Key::F4),
            125 => Ok(Key::F5),
            126 => Ok(Key::F6),
            127 => Ok(Key::F7),
            128 => Ok(Key::F8),
            129 => Ok(Key::F9),
            130 => Ok(Key::F10),
            131 => Ok(Key::F11),
            132 => Ok(Key::F12),
            133 => Ok(Key::F13),
            134 => Ok(Key::F14),
            135 => Ok(Key::F15),
            136 => Ok(Key::F16),
            137 => Ok(Key::F17),
            138 => Ok(Key::F18),
            139 => Ok(Key::F19),
            140 => Ok(Key::F20),
            141 => Ok(Key::F21),
            142 => Ok(Key::F22),
            143 => Ok(Key::F23),
            144 => Ok(Key::F24),
            145 => Ok(Key::F25),
            146 => Ok(Key::Fn),
            147 => Ok(Key::FnLock),
            148 => Ok(Key::PrintScreen),
            149 => Ok(Key::ScrollLock),
            150 => Ok(Key::Pause),
            151 => Ok(Key::BrowserBack),
            152 => Ok(Key::BrowserFavorites),
            153 => Ok(Key::BrowserForward),
            154 => Ok(Key::BrowserHome),
            155 => Ok(Key::BrowserRefresh),
            156 => Ok(Key::BrowserSearch),
            157 => Ok(Key::BrowserStop),
            158 => Ok(Key::Eject),
            159 => Ok(Key::LaunchApp1),
            160 => Ok(Key::LaunchApp2),
            161 => Ok(Key::LaunchMail),
            162 => Ok(Key::MediaPlayPause),
            163 => Ok(Key::MediaSelect),
            164 => Ok(Key::MediaStop),
            165 => Ok(Key::MediaTrackNext),
            166 => Ok(Key::MediaTrackPrevious),
            167 => Ok(Key::Power),
            168 => Ok(Key::Sleep),
            169 => Ok(Key::AudioVolumeDown),
            170 => Ok(Key::AudioVolumeMute),
            171 => Ok(Key::AudioVolumeUp),
            172 => Ok(Key::WakeUp),
            173 => Ok(Key::Copy),
            174 => Ok(Key::Cut),
            175 => Ok(Key::Paste),
            _ => Err(Error::InvalidValue),
        }
    }

    /// Every value has a number of its own, and a number decodes to the value that it stands for
    /// and to nothing else.
    pub proof fn codes_round_trip(self, code: u32)
        ensures
            Self::decoded(self.spec_code()) == Ok::<Self, Error>(self),
            Self::decoded(code) matches Ok(value) ==> value.spec_code() == code,
    {
    }
}

/// Key event action type.
#[derive(Clone, Copy, Debug, PartialEq, Eq, Structural)]
#[non_exhaustive]
pub enum Action {
    /// Key was pressed.
    Press,
    /// Key was released.
    Release,
    /// Key is being repeated (held down).
    Repeat,
}

impl Action {
    /// The number that stands for this value in the engine's interface.
    pub open spec fn spec_code(self) -> u32 {
        match self {
            Action::Press => 1,
            Action::Release => 0,
            Action::Repeat => 2,
        }
    }

    /// The value that `code` stands for; a number that stands for none is an invalid value.
    pub open spec fn decoded(code: u32) -> Result<Self> {
        match code {
            1 => Ok(Action::Press),
            0 => Ok(Action::Release),
            2 => Ok(Action::Repeat),
            _ => Err(Error::InvalidValue),
        }
    }

    /// The number that stands for this value in the engine's interface.
    pub fn code(self) -> (res: u32)
        ensures
            res == self.spec_code(),
    {
        match self {
            Action::Press => 1,
            Action::Release => 0,
            Action::Repeat => 2,
        }
    }

    /// The value that `code` stands for.
    pub fn from_code(code: u32) -> (res: Result<Self>)
        ensures
            res == Self::decoded(code),
    {
        match code {
            1 => Ok(Action::Press),
            0 => Ok(Action::Release),
            2 => Ok(Action::Repeat),
            _ => Err(Error::InvalidValue),
        }
    }

    /// Every value has a number of its own, and a number decodes to the value that it stands for
    /// and to nothing else.
    pub proof fn codes_round_trip(self, code: u32)
        ensures
            Self::decoded(self.spec_code()) == Ok::<Self, Error>(self),
            Self::decoded(code) matches Ok(value) ==> value.spec_code() == code,
    {
    }

    /// The engine counts the values from zero on: `Release`, `Press`, `Repeat`. No other number
    /// stands for one.
    pub proof fn values_are_counted(self, code: u32)
        ensures
            self is Release <==> self.spec_code() == 0,
            self is Press <==> self.spec_code() == 1,
            self is Repeat <==> self.spec_code() == 2,
            Self::decoded(code) == Ok::<Self, Error>(self) <==> code == self.spec_code(),
            Self::decoded(code) is Ok <==> code < 3,
            Self::decoded(code) is Err ==> Self::decoded(code) == Err::<Self, Error>(
                Error::InvalidValue,
            ),
    {
    }
}

/// macOS option key behavior.
///
/// Determines whether the "option" key on macOS is treated as "alt" or not.
#[derive(Clone, Copy, Debug, PartialEq, Eq, Structural)]
pub enum OptionAsAlt {
    /// Option key is not treated as alt.
    False,
    /// Option key is treated as alt.
    True,
    /// Only left option key is treated as alt.
    Left,
    /// Only right option key is treated as alt.
    Right,
}

impl OptionAsAlt {
    /// The number that stands for this value in the engine's interface.
    pub open spec fn spec_code(self) -> u32 {
        match self {
            OptionAsAlt::False => 0,
            OptionAsAlt::True => 1,
            OptionAsAlt::Left => 2,
            OptionAsAlt::Right => 3,
        }
    }

    /// The value that `code` stands for; a number that stands for none is an invalid value.
    pub open spec fn decoded(code: u32) -> Result<Self> {
        match code {
            0 => Ok(OptionAsAlt::False),
            1 => Ok(OptionAsAlt::True),
            2 => Ok(OptionAsAlt::Left),
            3 => Ok(OptionAsAlt::Right),
            _ => Err(Error::InvalidValue),
        }
    }

    /// The number that stands for this value in the engine's interface.
    pub fn code(self) -> (res: u32)
        ensures
            res == self.spec_code(),
    {
        match self {
            OptionAsAlt::False => 0,
            OptionAsAlt::True => 1,
            OptionAsAlt::Left => 2,
            OptionAsAlt::Right => 3,
        }
    }

    /// The value that `code` stands for.
    pub fn from_code(code: u32) -> (res: Result<Self>)
        ensures
            res == Self::decoded(code),
    {
        match code {
            0 => Ok(OptionAsAlt::False),
            1 => Ok(OptionAsAlt::True),
            2 => Ok(OptionAsAlt::Left),
            3 => Ok(OptionAsAlt::Right),
            _ => Err(Error::InvalidValue),
        }
    }

    /// Every value has a number of its own, and a number decodes to the value that it stands for
    /// and to nothing else.
    pub proof fn codes_round_trip(self, code: u32)
        ensures
            Self::decoded(self.spec_code()) == Ok::<Self, Error>(self),
            Self::decoded(code) matches Ok(value) ==> value.spec_code() == code,
    {
    }

    /// The engine counts the values from zero on: `False`, `True`, `Left`, `Right`. No other number
    /// stands for one.
    pub proof fn values_are_counted(self, code: u32)
        ensures
            self is False <==> self.spec_code() == 0,
            self is True <==> self.spec_code() == 1,
            self is Left <==> self.spec_code() == 2,
            self is Right <==> self.spec_code() == 3,
            Self::decoded(code) == Ok::<Self, Error>(self) <==> code == self.spec_code(),
            Self::decoded(code) is Ok <==> code < 4,
            Self::decoded(code) is Err ==> Self::decoded(code) == Err::<Self, Error>(
                Error::InvalidValue,
            ),
    {
    }
}

/// Keyboard modifier keys bitmask.
///
/// This tracks which modifier keys are pressed and, where supported by the platform, which side
/// (left or right) of each modifier is active. Modifier side bits are only meaningful when the
/// corresponding modifier bit is set.
#[derive(Clone, Copy, Debug, PartialEq, Eq, Structural)]
pub struct Mods {
    /// The bits of the flags that are set.
    pub bits: u16,
}

/// The bits of the flags.
impl Mods {
    /// Shift key is pressed.
    pub const SHIFT: u16 = 1;

    /// Control key is pressed.
    pub const CTRL: u16 = 2;

    /// Alt key is pressed.
    pub const ALT: u16 = 4;

    /// Super/Command/Windows key is pressed.
    pub const SUPER: u16 = 8;

    /// Caps Lock is active.
    pub const CAPS_LOCK: u16 = 16;

    /// Num Lock is active.
    pub const NUM_LOCK: u16 = 32;

    /// Right Shift is pressed (unset = left, set = right).
    pub const SHIFT_SIDE: u16 = 64;

    /// Right Control is pressed (unset = left, set = right).
    pub const CTRL_SIDE: u16 = 128;

    /// Right Alt is pressed (unset = left, set = right).
    pub const ALT_SIDE: u16 = 256;

    /// Right Super is pressed (unset = left, set = right).
    pub const SUPER_SIDE: u16 = 512;
}

impl Mods {
    /// Whether every flag of `other` is set.
    pub open spec fn has(self, other: Self) -> bool {
        self.bits & other.bits == other.bits
    }

    /// No flag.
    pub fn empty() -> (res: Self)
        ensures
            res.bits == 0,
    {
        Mods { bits: 0 }
    }

    /// Every flag that is defined.
    pub fn all() -> (res: Self)
        ensures
            res.bits == 1023,
    {
        Mods { bits: 1023 }
    }

    /// The flags with the given bits; bits that no flag is defined for are kept.
    pub fn from_bits_retain(bits: u16) -> (res: Self)
        ensures
            res.bits == bits,
    {
        Mods { bits }
    }

    /// The bits of the flags that are set.
    pub fn bits(self) -> (res: u16)
        ensures
            res == self.bits,
    {
        self.bits
    }

    /// Whether every flag of `other` is set.
    pub fn contains(self, other: Self) -> (res: bool)
        ensures
            res == self.has(other),
    {
        self.bits & other.bits == other.bits
    }

    /// The flags that are set in either.
    pub fn union(self, other: Self) -> (res: Self)
        ensures
            res.bits == self.bits | other.bits,
    {
        Mods { bits: self.bits | other.bits }
    }

    /// Set the flags of `other`, too.
    pub fn insert(&mut self, other: Self)
        ensures
            final(self).bits == old(self).bits | other.bits,
    {
        self.bits = self.bits | other.bits;
    }

    /// A union has the flags of both sides, and no others: whatever has both sides has the union.
    pub proof fn union_is_least(a: Self, b: Self, c: Self)
        ensures
            (Mods { bits: a.bits | b.bits }).has(a),
            (Mods { bits: a.bits | b.bits }).has(b),
            c.has(a) && c.has(b) <==> c.has(Mods { bits: a.bits | b.bits }),
    {
        let (x, y, z) = (a.bits, b.bits, c.bits);
        assert((x | y) & x == x && (x | y) & y == y) by (bit_vector);
        assert((z & x == x && z & y == y) <==> z & (x | y) == x | y) by (bit_vector);
    }

    /// Having flags is an order: every set has itself and the empty set, and what a subset has,
    /// the set has.
    pub proof fn has_is_an_order(a: Self, b: Self, c: Self)
        ensures
            a.has(a),
            a.has(Mods { bits: 0 }),
            a.has(b) && b.has(c) ==> a.has(c),
            a.has(b) && b.has(a) ==> a == b,
    {
        let (x, y, z) = (a.bits, b.bits, c.bits);
        assert(x & x == x && x & 0 == 0) by (bit_vector);
        assert((x & y == y && y & z == z) ==> x & z == z) by (bit_vector);
        assert((x & y == y && y & x == x) ==> x == y) by (bit_vector);
    }
}

/// Kitty keyboard protocol flags.
///
/// Bitflags representing the various modes of the Kitty keyboard protocol.
#[derive(Clone, Copy, Debug, PartialEq, Eq, Structural)]
pub struct KittyKeyFlags {
    /// The bits of the flags that are set.
    pub bits: u8,
}

/// The bits of the flags.
impl KittyKeyFlags {
    /// Kitty keyboard protocol disabled (all flags off).
    pub const DISABLED: u8 = 0;

    /// Disambiguate escape codes.
    pub const DISAMBIGUATE: u8 = 1;

    /// Report key press and release events.
    pub const REPORT_EVENTS: u8 = 2;

    /// Report alternate key codes.
    pub const REPORT_ALTERNATES: u8 = 4;

    /// Report all key events including those normally handled by the terminal.
    pub const REPORT_ALL: u8 = 8;

    /// Report associated text with key events.
    pub const REPORT_ASSOCIATED: u8 = 16;

    /// All Kitty keyboard protocol flags enabled.
    pub const ALL: u8 = 31;
}

impl KittyKeyFlags {
    /// Whether every flag of `other` is set.
    pub open spec fn has(self, other: Self) -> bool {
        self.bits & other.bits == other.bits
    }

    /// No flag.
    pub fn empty() -> (res: Self)
        ensures
            res.bits == 0,
    {
        KittyKeyFlags { bits: 0 }
    }

    /// Every flag that is defined.
    pub fn all() -> (res: Self)
        ensures
            res.bits == 31,
    {
        KittyKeyFlags { bits: 31 }
    }

    /// The flags with the given bits; bits that no flag is defined for are kept.
    pub fn from_bits_retain(bits: u8) -> (res: Self)
        ensures
            res.bits == bits,
    {
        KittyKeyFlags { bits }
    }

    /// The bits of the flags that are set.
    pub fn bits(self) -> (res: u8)
        ensures
            res == self.bits,
    {
        self.bits
    }

    /// Whether every flag of `other` is set.
    pub fn contains(self, other: Self) -> (res: bool)
        ensures
            res == self.has(other),
    {
        self.bits & other.bits == other.bits
    }

    /// The flags that are set in either.
    pub fn union(self, other: Self) -> (res: Self)
        ensures
            res.bits == self.bits | other.bits,
    {
        KittyKeyFlags { bits: self.bits | other.bits }
    }

    /// Set the flags of `other`, too.
    pub fn insert(&mut self, other: Self)
        ensures
            final(self).bits == old(self).bits | other.bits,
    {
        self.bits = self.bits | other.bits;
    }

    /// A union has the flags of both sides, and no others: whatever has both sides has the union.
    pub proof fn union_is_least(a: Self, b: Self, c: Self)
        ensures
            (KittyKeyFlags { bits: a.bits | b.bits }).has(a),
            (KittyKeyFlags { bits: a.bits | b.bits }).has(b),
            c.has(a) && c.has(b) <==> c.has(KittyKeyFlags { bits: a.bits | b.bits }),
    {
        let (x, y, z) = (a.bits, b.bits, c.bits);
        assert((x | y) & x == x && (x | y) & y == y) by (bit_vector);
        assert((z & x == x && z & y == y) <==> z & (x | y) == x | y) by (bit_vector);
    }

    /// Having flags is an order: every set has itself and the empty set, and what a subset has,
    /// the set has.
    pub proof fn has_is_an_order(a: Self, b: Self, c: Self)
        ensures
            a.has(a),
            a.has(KittyKeyFlags { bits: 0 }),
            a.has(b) && b.has(c) ==> a.has(c),
            a.has(b) && b.has(a) ==> a == b,
    {
        let (x, y, z) = (a.bits, b.bits, c.bits);
        assert(x & x == x && x & 0 == 0) by (bit_vector);
        assert((x & y == y && y & z == z) ==> x & z == z) by (bit_vector);
        assert((x & y == y && y & x == x) ==> x == y) by (bit_vector);
    }
}

/// The engine counts the keys in the order of their names within a group: the digits, the letters,
/// the digits of the keypad and the function keys follow each other, and so do the arrows from down to
/// up and the left and the right one of a pair.
pub proof fn keys_are_counted_in_groups()
    ensures
        Key::Unidentified.spec_code() == 0,
        Key::Digit1.spec_code() == Key::Digit0.spec_code() + 1,
        Key::Digit2.spec_code() == Key::Digit0.spec_code() + 2,
        Key::Digit3.spec_code() == Key::Digit0.spec_code() + 3,
        Key::Digit4.spec_code() == Key::Digit0.spec_code() + 4,
        Key::Digit5.spec_code() == Key::Digit0.spec_code() + 5,
        Key::Digit6.spec_code() == Key::Digit0.spec_code() + 6,
        Key::Digit7.spec_code() == Key::Digit0.spec_code() + 7,
        Key::Digit8.spec_code() == Key::Digit0.spec_code() + 8,
        Key::Digit9.spec_code() == Key::Digit0.spec_code() + 9,
        Key::M.spec_code() == Key::A.spec_code() + 12,
        Key::Z.spec_code() == Key::A.spec_code() + 25,
        Key::Numpad1.spec_code() == Key::Numpad0.spec_code() + 1,
        Key::Numpad2.spec_code() == Key::Numpad0.spec_code() + 2,
        Key::Numpad3.spec_code() == Key::Numpad0.spec_code() + 3,
        Key::Numpad4.spec_code() == Key::Numpad0.spec_code() + 4,
        Key::Numpad5.spec_code() == Key::Numpad0.spec_code() + 5,
        Key::Numpad6.spec_code() == Key::Numpad0.spec_code() + 6,
        Key::Numpad7.spec_code() == Key::Numpad0.spec_code() + 7,
        Key::Numpad8.spec_code() == Key::Numpad0.spec_code() + 8,
        Key::Numpad9.spec_code() == Key::Numpad0.spec_code() + 9,
        Key::F12.spec_code() == Key::F1.spec_code() + 11,
        Key::F25.spec_code() == Key::F1.spec_code() + 24,
        Key::ArrowLeft.spec_code() == Key::ArrowDown.spec_code() + 1,
        Key::ArrowRight.spec_code() == Key::ArrowDown.spec_code() + 2,
        Key::ArrowUp.spec_code() == Key::ArrowDown.spec_code() + 3,
        Key::BracketRight.spec_code() == Key::BracketLeft.spec_code() + 1,
        Key::AltRight.spec_code() == Key::AltLeft.spec_code() + 1,
        Key::ControlRight.spec_code() == Key::ControlLeft.spec_code() + 1,
        Key::MetaRight.spec_code() == Key::MetaLeft.spec_code() + 1,
        Key::ShiftRight.spec_code() == Key::ShiftLeft.spec_code() + 1,
        Key::PageUp.spec_code() == Key::PageDown.spec_code() + 1,
{
}

} // verus!
