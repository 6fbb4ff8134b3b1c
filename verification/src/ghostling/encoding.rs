//! Setting up events and encoders for input.
//!
//! The engine is a value that goes from call to call: each function value takes the engine as the
//! call before it left it, so that the contracts fix the order of the calls.
use crate::buffer::{a_fitting_retry_succeeds, appended, encodes, encodes_as, BufReply};
use crate::error::{Error, Result};
use crate::ghostling::input::{Buttons, KeyInput, MouseInput};
use crate::key::{self, EventState};
use crate::mouse::{self, Action, Button};
use crate::terminal::Terminal;
use vstd::prelude::*;

verus! {

/// `res` holds the bytes that `encode` makes of `event` from scratch when the engine is as in
/// `start`, or the error; the engine is as in `engine` then.
pub open spec fn encoded<S, F: Fn(&S, usize, usize, usize) -> (S, BufReply<u8>)>(
    encode: F,
    start: S,
    encoder: usize,
    event: usize,
    engine: S,
    res: Result<Vec<u8>>,
) -> bool {
    exists|room: usize, first: (S, BufReply<u8>), bytes: Seq<u8>, out: Result<()>| #[trigger]
        encode.ensures((&start, encoder, event, room), first) && #[trigger] appended(
            encode,
            encoder,
            event,
            first,
            Seq::empty(),
            bytes,
            engine,
            out,
        ) && match res {
            Ok(vec) => out is Ok && vec@ == bytes,
            Err(e) => out == Err::<(), Error>(e),
        }
}

/// The calls that make `input` of the key event, and then sync the encoder with the terminal, take
/// the engine from `start` to `engine`, in this order.
pub open spec fn key_event_set<
    S,
    A: FnOnce(&S, usize, u32) -> S,
    K: FnOnce(&S, usize, u32) -> S,
    M: FnOnce(&S, usize, u16) -> S,
    C: FnOnce(&S, usize, u16) -> S,
    P: FnOnce(&S, usize, u32) -> S,
    U: FnOnce(&S, usize, Option<&str>) -> S,
    Y: FnOnce(&S, usize, usize) -> S,
>(
    set_action: A,
    set_key: K,
    set_mods: M,
    set_consumed_mods: C,
    set_unshifted_codepoint: P,
    set_utf8: U,
    sync: Y,
    event: usize,
    encoder: usize,
    terminal: usize,
    input: KeyInput,
    start: S,
    engine: S,
) -> bool {
    exists|s1: S, s2: S, s3: S, s4: S, s5: S, s6: S, text: Option<&str>|
        {
            &&& #[trigger] set_action.ensures((&start, event, input.action.spec_code()), s1)
            &&& #[trigger] set_key.ensures((&s1, event, input.key.spec_code()), s2)
            &&& #[trigger] set_mods.ensures((&s2, event, input.mods.bits), s3)
            &&& #[trigger] set_consumed_mods.ensures((&s3, event, input.consumed.bits), s4)
            &&& #[trigger] set_unshifted_codepoint.ensures(
                (&s4, event, input.unshifted as u32),
                s5,
            )
            &&& #[trigger] set_utf8.ensures((&s5, event, text), s6)
            &&& key::text_of(text) == input@.text
            &&& sync.ensures((&s6, encoder, terminal), engine)
        }
}

/// Encode a key event.
///
/// The event is set up from `input` first. Then the encoder's options are taken from the terminal,
/// so that mode changes (e.g. application cursor keys, Kitty keyboard protocol) are honored. The
/// encoding comes last.
pub fn encode_key_input<S, H, E: Fn(&S, usize, usize, usize) -> (S, BufReply<u8>)>(
    event: &mut key::Event,
    encoder: &mut key::Encoder,
    terminal: &Terminal<H>,
    input: KeyInput,
    engine: &mut S,
    set_action: impl FnOnce(&S, usize, u32) -> S,
    set_key: impl FnOnce(&S, usize, u32) -> S,
    set_mods: impl FnOnce(&S, usize, u16) -> S,
    set_consumed_mods: impl FnOnce(&S, usize, u16) -> S,
    set_unshifted_codepoint: impl FnOnce(&S, usize, u32) -> S,
    set_utf8: impl FnOnce(&S, usize, Option<&str>) -> S,
    sync: impl FnOnce(&S, usize, usize) -> S,
    encode: E,
) -> (res: Result<Vec<u8>>)
    requires
        set_action.requires((&*old(engine), old(event).addr(), input.action.spec_code())),
        forall|s: &S| #[trigger] set_key.requires((s, old(event).addr(), input.key.spec_code())),
        forall|s: &S| #[trigger] set_mods.requires((s, old(event).addr(), input.mods.bits)),
        forall|s: &S| #[trigger]
            set_consumed_mods.requires((s, old(event).addr(), input.consumed.bits)),
        forall|s: &S| #[trigger]
            set_unshifted_codepoint.requires((s, old(event).addr(), input.unshifted as u32)),
        forall|s: &S, text: Option<&str>|
            key::text_of(text) == input@.text ==> #[trigger] set_utf8.requires(
                (s, old(event).addr(), text),
            ),
        forall|s: &S| #[trigger] sync.requires((s, old(encoder).addr(), terminal.addr())),
        encodes(encode, old(encoder).addr(), old(event).addr(), 0),
    ensures
        final(event).addr() == old(event).addr(),
        final(event).text() == input@.text,
        final(encoder).addr() == old(encoder).addr(),
        exists|s: S|
            {
                &&& key_event_set(
                    set_action,
                    set_key,
                    set_mods,
                    set_consumed_mods,
                    set_unshifted_codepoint,
                    set_utf8,
                    sync,
                    old(event).addr(),
                    old(encoder).addr(),
                    terminal.addr(),
                    input,
                    *old(engine),
                    s,
                )
                &&& #[trigger] encoded(
                    encode,
                    s,
                    old(encoder).addr(),
                    old(event).addr(),
                    *final(engine),
                    res,
                )
            },
{
    let ghost given = input@;
    event.set_action(input.action, engine, set_action);
    let ghost s1 = *engine;
    event.set_key(input.key, engine, set_key);
    let ghost s2 = *engine;
    event.set_mods(input.mods, engine, set_mods);
    let ghost s3 = *engine;
    event.set_consumed_mods(input.consumed, engine, set_consumed_mods);
    let ghost s4 = *engine;
    // The unshifted codepoint is the character the key produces with no modifiers. The Kitty
    // protocol needs it to identify keys independent of the current shift state.
    event.set_unshifted_codepoint(input.unshifted, engine, set_unshifted_codepoint);
    let ghost s5 = *engine;
    event.set_utf8(input.text, engine, set_utf8);
    let ghost s6 = *engine;
    let ghost text = choose|text: Option<&str>| #[trigger]
        set_utf8.ensures((&s5, event.addr(), text), s6) && key::same_text(text, input.text);
    assert(key::text_of(text) == given.text);
    encoder.set_options_from_terminal(terminal, engine, sync);
    let ghost s7 = *engine;
    let mut bytes: Vec<u8> = Vec::new();
    let out = encoder.encode_to_vec(&*event, &mut bytes, engine, encode);
    let ghost all = bytes@;
    let res = match out {
        Ok(_) => Ok(bytes),
        Err(e) => Err(e),
    };
    proof {
        let (room, first) = choose|room: usize, first: (S, BufReply<u8>)| #[trigger]
            encode.ensures((&s7, encoder.addr(), event.addr(), room), first) && appended(
                encode,
                encoder.addr(),
                event.addr(),
                first,
                Seq::empty(),
                all,
                *engine,
                out,
            );
        assert(encode.ensures((&s7, encoder.addr(), event.addr(), room), first));
        assert(encoded(encode, s7, encoder.addr(), event.addr(), *engine, res));
        assert(set_key.ensures((&s1, event.addr(), input.key.spec_code()), s2));
        assert(set_mods.ensures((&s2, event.addr(), input.mods.bits), s3));
        assert(set_consumed_mods.ensures((&s3, event.addr(), input.consumed.bits), s4));
        assert(set_unshifted_codepoint.ensures((&s4, event.addr(), input.unshifted as u32), s5));
        assert(sync.ensures((&s6, encoder.addr(), terminal.addr()), s7));
        assert(key_event_set(
            set_action,
            set_key,
            set_mods,
            set_consumed_mods,
            set_unshifted_codepoint,
            set_utf8,
            sync,
            event.addr(),
            encoder.addr(),
            terminal.addr(),
            input,
            *old(engine),
            s7,
        ));
    }
    res
}

/// What the engine keeps of a key event that was set up from `input`, given whether it is part of a
/// composition sequence, which input does not say.
pub open spec fn event_of_input(input: KeyInput, composing: bool) -> EventState {
    EventState {
        action: input.action.spec_code(),
        key: input.key.spec_code(),
        mods: input.mods.bits,
        consumed_mods: input.consumed.bits,
        composing,
        unshifted_codepoint: input.unshifted as u32,
        text: input@.text,
    }
}

/// What is encoded is the input: after the calls of [`encode_key_input`] that come before the
/// encoding, the engine keeps all of the input and nothing of an earlier one, if it keeps the
/// properties of an event apart and an encoder's options apart from events.
pub proof fn the_input_is_what_is_encoded<
    S,
    A: FnOnce(&S, usize, u32) -> S,
    K: FnOnce(&S, usize, u32) -> S,
    M: FnOnce(&S, usize, u16) -> S,
    C: FnOnce(&S, usize, u16) -> S,
    P: FnOnce(&S, usize, u32) -> S,
    U: FnOnce(&S, usize, Option<&str>) -> S,
    Y: FnOnce(&S, usize, usize) -> S,
>(
    kept: spec_fn(S, usize) -> EventState,
    input: KeyInput,
    event: usize,
    encoder: usize,
    terminal: usize,
    set_action: A,
    set_key: K,
    set_mods: M,
    set_consumed_mods: C,
    set_unshifted_codepoint: P,
    set_utf8: U,
    sync: Y,
    start: S,
    s1: S,
    s2: S,
    s3: S,
    s4: S,
    s5: S,
    text: Option<&str>,
    s6: S,
    s7: S,
)
    requires
        key::stores(set_action, kept, |e: EventState, v: u32| EventState { action: v, ..e }),
        key::stores(set_key, kept, |e: EventState, v: u32| EventState { key: v, ..e }),
        key::stores(set_mods, kept, |e: EventState, v: u16| EventState { mods: v, ..e }),
        key::stores(
            set_consumed_mods,
            kept,
            |e: EventState, v: u16| EventState { consumed_mods: v, ..e },
        ),
        key::stores(
            set_unshifted_codepoint,
            kept,
            |e: EventState, v: u32| EventState { unshifted_codepoint: v, ..e },
        ),
        key::stores_text(set_utf8, kept),
        forall|s: &S, after: S| #[trigger]
            sync.ensures((s, encoder, terminal), after) ==> kept(after, event) == kept(*s, event),
        set_action.ensures((&start, event, input.action.spec_code()), s1),
        set_key.ensures((&s1, event, input.key.spec_code()), s2),
        set_mods.ensures((&s2, event, input.mods.bits), s3),
        set_consumed_mods.ensures((&s3, event, input.consumed.bits), s4),
        set_unshifted_codepoint.ensures((&s4, event, input.unshifted as u32), s5),
        set_utf8.ensures((&s5, event, text), s6),
        key::text_of(text) == input@.text,
        sync.ensures((&s6, encoder, terminal), s7),
    ensures
        kept(s7, event) == event_of_input(input, kept(start, event).composing),
{
}

/// Every part of the input is in its own place: after the calls of [`encode_key_input`] that come
/// before the encoding, the engine keeps the action, the key, both kinds of modifiers, the codepoint
/// and the text of the input, if it keeps the properties of an event apart and an encoder's options
/// apart from events.
pub proof fn every_part_of_the_input_is_in_its_place<
    S,
    A: FnOnce(&S, usize, u32) -> S,
    K: FnOnce(&S, usize, u32) -> S,
    M: FnOnce(&S, usize, u16) -> S,
    C: FnOnce(&S, usize, u16) -> S,
    P: FnOnce(&S, usize, u32) -> S,
    U: FnOnce(&S, usize, Option<&str>) -> S,
    Y: FnOnce(&S, usize, usize) -> S,
>(
    kept: spec_fn(S, usize) -> EventState,
    input: KeyInput,
    event: usize,
    encoder: usize,
    terminal: usize,
    set_action: A,
    set_key: K,
    set_mods: M,
    set_consumed_mods: C,
    set_unshifted_codepoint: P,
    set_utf8: U,
    sync: Y,
    start: S,
    engine: S,
)
    requires
        key::stores(set_action, kept, |e: EventState, v: u32| EventState { action: v, ..e }),
        key::stores(set_key, kept, |e: EventState, v: u32| EventState { key: v, ..e }),
        key::stores(set_mods, kept, |e: EventState, v: u16| EventState { mods: v, ..e }),
        key::stores(
            set_consumed_mods,
            kept,
            |e: EventState, v: u16| EventState { consumed_mods: v, ..e },
        ),
        key::stores(
            set_unshifted_codepoint,
            kept,
            |e: EventState, v: u32| EventState { unshifted_codepoint: v, ..e },
        ),
        key::stores_text(set_utf8, kept),
        forall|s: &S, after: S| #[trigger]
            sync.ensures((s, encoder, terminal), after) ==> kept(after, event) == kept(*s, event),
        key_event_set(
            set_action,
            set_key,
            set_mods,
            set_consumed_mods,
            set_unshifted_codepoint,
            set_utf8,
            sync,
            event,
            encoder,
            terminal,
            input,
            start,
            engine,
        ),
    ensures
        kept(engine, event).action == input.action.spec_code(),
        kept(engine, event).key == input.key.spec_code(),
        kept(engine, event).mods == input.mods.bits,
        kept(engine, event).consumed_mods == input.consumed.bits,
        kept(engine, event).unshifted_codepoint == input.unshifted as u32,
        kept(engine, event).text == input@.text,
        kept(engine, event).composing == kept(start, event).composing,
{
}

/// What is encoded comes out whole: if the encoding of the event comes to `bytes`, however much space
/// the first try has, then these are the result.
pub proof fn the_encoding_comes_out_whole<S, F: Fn(&S, usize, usize, usize) -> (S, BufReply<u8>)>(
    encode: F,
    encoder: usize,
    event: usize,
    states: Set<S>,
    bytes: Seq<u8>,
    start: S,
    engine: S,
    res: Result<Vec<u8>>,
)
    requires
        encodes_as(encode, encoder, event, states, bytes),
        states.contains(start),
        bytes.len() <= usize::MAX,
        encoded(encode, start, encoder, event, engine, res),
    ensures
        res is Ok,
        res->Ok_0@ == bytes,
{
    let (room, first, all, out) = choose|
        room: usize,
        first: (S, BufReply<u8>),
        all: Seq<u8>,
        out: Result<()>,
    | #[trigger]
        encode.ensures((&start, encoder, event, room), first) && #[trigger] appended(
            encode,
            encoder,
            event,
            first,
            Seq::empty(),
            all,
            engine,
            out,
        ) && match res {
            Ok(vec) => out is Ok && vec@ == all,
            Err(e) => out == Err::<(), Error>(e),
        };
    a_fitting_retry_succeeds(
        encode,
        encoder,
        event,
        states,
        bytes,
        start,
        room,
        first,
        Seq::empty(),
        all,
        engine,
        out,
    );
    assert(Seq::<u8>::empty() + bytes =~= bytes);
}

/// Set up the mouse event and the mouse encoder for the input of one frame.
///
/// The encoder's tracking mode and format are taken from the terminal, so that mode changes are
/// honored. It is told the geometry of the window, so that it can convert pixel positions to cells,
/// and whether any button is held, which tells drags from plain motion. Redundant motion within the
/// same cell is suppressed.
pub fn prepare_mouse_input<S, H>(
    event: &mut mouse::Event,
    encoder: &mut mouse::Encoder,
    terminal: &Terminal<H>,
    mods: key::Mods,
    position: mouse::Position,
    size: mouse::EncoderSize,
    buttons: &Buttons,
    engine: &mut S,
    set_mods: impl FnOnce(&S, usize, u16) -> S,
    set_position: impl FnOnce(&S, usize, mouse::Position) -> S,
    sync: impl FnOnce(&S, usize, usize) -> S,
    set_size: impl FnOnce(&S, usize, mouse::EncoderOption, mouse::EncoderSize) -> S,
    set_any_button: impl FnOnce(&S, usize, mouse::EncoderOption, bool) -> S,
    set_track: impl FnOnce(&S, usize, mouse::EncoderOption, bool) -> S,
)
    requires
        set_mods.requires((&*old(engine), old(event).addr(), mods.bits)),
        forall|s: &S| #[trigger] set_position.requires((s, old(event).addr(), position)),
        forall|s: &S| #[trigger] sync.requires((s, old(encoder).addr(), terminal.addr())),
        forall|s: &S| #[trigger]
            set_size.requires((s, old(encoder).addr(), mouse::EncoderOption::Size, size)),
        forall|s: &S| #[trigger]
            set_any_button.requires(
                (
                    s,
                    old(encoder).addr(),
                    mouse::EncoderOption::AnyButtonPressed,
                    buttons.held() is Some,
                ),
            ),
        forall|s: &S| #[trigger]
            set_track.requires(
                (s, old(encoder).addr(), mouse::EncoderOption::TrackLastCell, true),
            ),
    ensures
        *final(event) == *old(event),
        *final(encoder) == *old(encoder),
        exists|s1: S, s2: S, s3: S, s4: S, s5: S|
            {
                &&& #[trigger] set_mods.ensures((&*old(engine), old(event).addr(), mods.bits), s1)
                &&& #[trigger] set_position.ensures((&s1, old(event).addr(), position), s2)
                &&& #[trigger] sync.ensures((&s2, old(encoder).addr(), terminal.addr()), s3)
                &&& #[trigger] set_size.ensures(
                    (&s3, old(encoder).addr(), mouse::EncoderOption::Size, size),
                    s4,
                )
                &&& #[trigger] set_any_button.ensures(
                    (
                        &s4,
                        old(encoder).addr(),
                        mouse::EncoderOption::AnyButtonPressed,
                        buttons.held() is Some,
                    ),
                    s5,
                )
                &&& set_track.ensures(
                    (&s5, old(encoder).addr(), mouse::EncoderOption::TrackLastCell, true),
                    *final(engine),
                )
            },
{
    event.set_mods(mods, engine, set_mods);
    let ghost s1 = *engine;
    event.set_position(position, engine, set_position);
    let ghost s2 = *engine;
    encoder.set_options_from_terminal(terminal, engine, sync);
    let ghost s3 = *engine;
    encoder.set_size(size, engine, set_size);
    let ghost s4 = *engine;
    let any = buttons.any_down();
    assert(any == (buttons.held() is Some));
    assert(set_any_button.requires(
        (&s4, encoder.addr(), mouse::EncoderOption::AnyButtonPressed, buttons.held() is Some),
    ));
    encoder.set_any_button_pressed(any, engine, set_any_button);
    let ghost s5 = *engine;
    encoder.set_track_last_cell(true, engine, set_track);
    proof {
        assert(set_position.ensures((&s1, event.addr(), position), s2));
        assert(sync.ensures((&s2, encoder.addr(), terminal.addr()), s3));
        assert(set_size.ensures((&s3, encoder.addr(), mouse::EncoderOption::Size, size), s4));
        assert(set_any_button.ensures(
            (&s4, encoder.addr(), mouse::EncoderOption::AnyButtonPressed, buttons.held() is Some),
            s5,
        ));
    }
}

/// The calls that make `input` of the mouse event take the engine from `start` to `engine`, in the
/// order in which the input says what changes.
pub open spec fn mouse_event_set<
    S,
    A: FnOnce(&S, usize, u32) -> S,
    B: FnOnce(&S, usize, u32) -> S,
    C: FnOnce(&S, usize) -> S,
>(
    set_action: A,
    set_button: B,
    clear_button: C,
    event: usize,
    input: MouseInput,
    start: S,
    engine: S,
) -> bool {
    match input {
        MouseInput::Event { action, button } => exists|s: S|
            {
                &&& #[trigger] set_action.ensures((&start, event, action.spec_code()), s)
                &&& match button {
                    Some(button) => set_button.ensures((&s, event, button.spec_code()), engine),
                    None => clear_button.ensures((&s, event), engine),
                }
            },
        MouseInput::WheelPress(button) => exists|s: S|
            {
                &&& #[trigger] set_button.ensures((&start, event, button.spec_code()), s)
                &&& set_action.ensures((&s, event, Action::Press.spec_code()), engine)
            },
        MouseInput::WheelRelease => set_action.ensures(
            (&start, event, Action::Release.spec_code()),
            engine,
        ),
    }
}

/// Encode a mouse event, with what [`prepare_mouse_input`] set up.
///
/// What the input changes of the event is set first, and the encoding comes last.
pub fn encode_mouse_input<S, E: Fn(&S, usize, usize, usize) -> (S, BufReply<u8>)>(
    event: &mut mouse::Event,
    encoder: &mut mouse::Encoder,
    input: MouseInput,
    engine: &mut S,
    set_action: impl FnOnce(&S, usize, u32) -> S,
    set_button: impl FnOnce(&S, usize, u32) -> S,
    clear_button: impl FnOnce(&S, usize) -> S,
    encode: E,
) -> (res: Result<Vec<u8>>)
    requires
        match input {
            MouseInput::Event { action, button } => {
                &&& set_action.requires((&*old(engine), old(event).addr(), action.spec_code()))
                &&& match button {
                    Some(button) => forall|s: &S| #[trigger]
                        set_button.requires((s, old(event).addr(), button.spec_code())),
                    None => forall|s: &S| #[trigger]
                        clear_button.requires((s, old(event).addr())),
                }
            },
            MouseInput::WheelPress(button) => {
                &&& set_button.requires((&*old(engine), old(event).addr(), button.spec_code()))
                &&& forall|s: &S| #[trigger]
                    set_action.requires((s, old(event).addr(), Action::Press.spec_code()))
            },
            MouseInput::WheelRelease => set_action.requires(
                (&*old(engine), old(event).addr(), Action::Release.spec_code()),
            ),
        },
        encodes(encode, old(encoder).addr(), old(event).addr(), 0),
    ensures
        *final(event) == *old(event),
        *final(encoder) == *old(encoder),
        exists|s: S|
            {
                &&& mouse_event_set(
                    set_action,
                    set_button,
                    clear_button,
                    old(event).addr(),
                    input,
                    *old(engine),
                    s,
                )
                &&& #[trigger] encoded(
                    encode,
                    s,
                    old(encoder).addr(),
                    old(event).addr(),
                    *final(engine),
                    res,
                )
            },
{
    match input {
        MouseInput::Event { action, button } => {
            event.set_action(action, engine, set_action);
            event.set_button(button, engine, set_button, clear_button);
        },
        MouseInput::WheelPress(button) => {
            event.set_button(Some(button), engine, set_button, clear_button);
            event.set_action(Action::Press, engine, set_action);
        },
        MouseInput::WheelRelease => {
            event.set_action(Action::Release, engine, set_action);
        },
    }
    let ghost s = *engine;
    let mut bytes: Vec<u8> = Vec::new();
    let out = encoder.encode_to_vec(&*event, &mut bytes, engine, encode);
    let ghost all = bytes@;
    let res = match out {
        Ok(_) => Ok(bytes),
        Err(e) => Err(e),
    };
    proof {
        let (room, first) = choose|room: usize, first: (S, BufReply<u8>)| #[trigger]
            encode.ensures((&s, encoder.addr(), event.addr(), room), first) && appended(
                encode,
                encoder.addr(),
                event.addr(),
                first,
                Seq::empty(),
                all,
                *engine,
                out,
            );
        assert(encode.ensures((&s, encoder.addr(), event.addr(), room), first));
        assert(encoded(encode, s, encoder.addr(), event.addr(), *engine, res));
    }
    res
}

/// The wheel's button is pressed and then released: the two events of the wheel are encoded with the
/// same button, if the engine keeps the action and the button of an event apart, and encoding
/// changes neither. `kept` says which action and which button the engine keeps.
pub proof fn the_wheel_releases_what_it_pressed<
    S,
    A: Fn(&S, usize, u32) -> S,
    B: Fn(&S, usize, u32) -> S,
    C: Fn(&S, usize) -> S,
    E: Fn(&S, usize, usize, usize) -> (S, BufReply<u8>),
>(
    kept: spec_fn(S, usize) -> (u32, Option<u32>),
    set_action: A,
    set_button: B,
    clear_button: C,
    encode: E,
    encoder: usize,
    event: usize,
    button: Button,
    start: S,
    pressed: S,
    res: Result<Vec<u8>>,
    between: S,
    released: S,
)
    requires
        forall|s: &S, v: u32, after: S| #[trigger]
            set_action.ensures((s, event, v), after) ==> kept(after, event) == (
                v,
                kept(*s, event).1,
            ),
        forall|s: &S, v: u32, after: S| #[trigger]
            set_button.ensures((s, event, v), after) ==> kept(after, event) == (
                kept(*s, event).0,
                Some(v),
            ),
        forall|s: &S, room: usize, out: (S, BufReply<u8>)| #[trigger]
            encode.ensures((s, encoder, event, room), out) ==> kept(out.0, event) == kept(
                *s,
                event,
            ),
        mouse_event_set(
            set_action,
            set_button,
            clear_button,
            event,
            MouseInput::WheelPress(button),
            start,
            pressed,
        ),
        encoded(encode, pressed, encoder, event, between, res),
        mouse_event_set(
            set_action,
            set_button,
            clear_button,
            event,
            MouseInput::WheelRelease,
            between,
            released,
        ),
    ensures
        kept(pressed, event) == (Action::Press.spec_code(), Some(button.spec_code())),
        kept(released, event) == (Action::Release.spec_code(), Some(button.spec_code())),
{
    assert(kept(between, event) == kept(pressed, event));
}

/// What is encoded is the event: after the calls of [`encode_mouse_input`] that come before the
/// encoding, the engine keeps the action and the button of the input, or no button if it has none, if
/// it keeps the two apart. `kept` says which action and which button the engine keeps.
pub proof fn the_mouse_event_is_what_is_encoded<
    S,
    A: FnOnce(&S, usize, u32) -> S,
    B: FnOnce(&S, usize, u32) -> S,
    C: FnOnce(&S, usize) -> S,
>(
    kept: spec_fn(S, usize) -> (u32, Option<u32>),
    set_action: A,
    set_button: B,
    clear_button: C,
    event: usize,
    action: Action,
    button: Option<Button>,
    start: S,
    engine: S,
)
    requires
        forall|s: &S, v: u32, after: S| #[trigger]
            set_action.ensures((s, event, v), after) ==> kept(after, event) == (
                v,
                kept(*s, event).1,
            ),
        forall|s: &S, v: u32, after: S| #[trigger]
            set_button.ensures((s, event, v), after) ==> kept(after, event) == (
                kept(*s, event).0,
                Some(v),
            ),
        forall|s: &S, after: S| #[trigger]
            clear_button.ensures((s, event), after) ==> kept(after, event) == (
                kept(*s, event).0,
                None::<u32>,
            ),
        mouse_event_set(
            set_action,
            set_button,
            clear_button,
            event,
            MouseInput::Event { action, button },
            start,
            engine,
        ),
    ensures
        kept(engine, event).0 == action.spec_code(),
        button is None ==> kept(engine, event).1 is None,
        button matches Some(button) ==> kept(engine, event).1 == Some(button.spec_code()),
{
}

} // verus!
