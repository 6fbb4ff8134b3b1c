use libghostty_vt::buffer::BufReply;
use libghostty_vt::error::{Error, Result};
use libghostty_vt::ghostling::encoding::{
    encode_key_input, encode_mouse_input, prepare_mouse_input,
};
use libghostty_vt::ghostling::input::{
    bound_key, events_of, handle_keyboard_input, handle_mouse_input, keyboard_mods, ButtonState,
    Buttons, KeyInput, Keyboard, MouseInput, Wheel, KEY_COUNT,
};
use libghostty_vt::key::{self, Key, Mods};
use libghostty_vt::memory::NewReply;
use libghostty_vt::mouse::{self, Action, Button, EncoderOption, EncoderSize, Position};
use libghostty_vt::terminal::{Mode, Options, ScrollViewport, Terminal};
use macroquad::prelude::KeyCode;

const IDLE: ButtonState = ButtonState { down: false, pressed: false, released: false };
const NO_BUTTONS: Buttons = Buttons { left: IDLE, right: IDLE, middle: IDLE };

fn made(raw: usize) -> impl FnOnce(usize) -> NewReply {
    move |_| NewReply { code: 0, raw }
}

fn terminal() -> Terminal {
    let opts = Options { cols: 80, rows: 24, max_scrollback: 0 };
    Terminal::new(opts, |_, _| NewReply { code: 0, raw: 0x77 }).unwrap()
}

fn keyboard(released: &[KeyCode], pressed: &[KeyCode], down: &[KeyCode]) -> Keyboard {
    let codes = |keys: &[KeyCode]| keys.iter().map(|&key| key as u16).collect();
    Keyboard { released: codes(released), pressed: codes(pressed), down: codes(down) }
}

/// The events of a frame, and what was sent.
fn type_in(text: &str, keyboard: &Keyboard, bytes: &[u8]) -> (Vec<KeyInput>, Vec<u8>) {
    let mut response = Vec::new();
    let (inputs, res) = handle_keyboard_input(
        text.to_string(),
        keyboard,
        &mut response,
        Vec::new(),
        |mut inputs: Vec<KeyInput>, input| {
            inputs.push(input);
            (inputs, Ok(bytes.to_vec()))
        },
    );
    assert_eq!(res, Ok(()));
    (inputs, response)
}

#[test]
fn the_codes_are_those_of_the_window_system() {
    let expected = [
        (0, KeyCode::A, Key::A, 'a'),
        (25, KeyCode::Z, Key::Z, 'z'),
        (26, KeyCode::Key0, Key::Digit0, '0'),
        (35, KeyCode::Key9, Key::Digit9, '9'),
        (36, KeyCode::Space, Key::Space, ' '),
        (37, KeyCode::Enter, Key::Enter, '\0'),
        (38, KeyCode::Tab, Key::Tab, '\0'),
        (39, KeyCode::Backspace, Key::Backspace, '\0'),
        (40, KeyCode::Delete, Key::Delete, '\0'),
        (41, KeyCode::Escape, Key::Escape, '\0'),
        (42, KeyCode::Up, Key::ArrowUp, '\0'),
        (43, KeyCode::Down, Key::ArrowDown, '\0'),
        (44, KeyCode::Left, Key::ArrowLeft, '\0'),
        (45, KeyCode::Right, Key::ArrowRight, '\0'),
        (46, KeyCode::Home, Key::Home, '\0'),
        (47, KeyCode::End, Key::End, '\0'),
        (48, KeyCode::PageUp, Key::PageUp, '\0'),
        (49, KeyCode::PageDown, Key::PageDown, '\0'),
        (50, KeyCode::Insert, Key::Insert, '\0'),
        (51, KeyCode::Minus, Key::Minus, '-'),
        (52, KeyCode::Equal, Key::Equal, '='),
        (53, KeyCode::LeftBracket, Key::BracketLeft, '['),
        (54, KeyCode::RightBracket, Key::BracketRight, ']'),
        (55, KeyCode::Backslash, Key::Backslash, '\\'),
        (56, KeyCode::Semicolon, Key::Semicolon, ';'),
        (57, KeyCode::Apostrophe, Key::Quote, '\''),
        (58, KeyCode::Comma, Key::Comma, ','),
        (59, KeyCode::Period, Key::Period, '.'),
        (60, KeyCode::Slash, Key::Slash, '/'),
        (61, KeyCode::GraveAccent, Key::Backquote, '`'),
        (62, KeyCode::F1, Key::F1, '\0'),
        (73, KeyCode::F12, Key::F12, '\0'),
    ];
    for (i, code, key, unshifted) in expected {
        let bound = bound_key(i);
        assert_eq!((bound.code, bound.key, bound.unshifted), (code as u16, key, unshifted));
    }
}

#[test]
fn no_key_is_bound_twice() {
    for i in 0..KEY_COUNT {
        for j in 0..i {
            assert_ne!(bound_key(i).code, bound_key(j).code);
            assert_ne!(bound_key(i).key, bound_key(j).key);
        }
    }
}

#[test]
fn letters_and_digits_are_in_order() {
    for (i, c) in ('a'..='z').chain('0'..='9').enumerate() {
        assert_eq!(bound_key(i).unshifted, c);
        assert_eq!(bound_key(i).code, c.to_ascii_uppercase() as u16);
    }
}

#[test]
fn modifiers_come_from_either_side() {
    let mods = |keys: &[KeyCode]| keyboard_mods(&keyboard(&[], &[], keys).down).bits();
    assert_eq!(mods(&[]), 0);
    assert_eq!(mods(&[KeyCode::A]), 0);
    assert_eq!(mods(&[KeyCode::LeftShift]), Mods::SHIFT);
    assert_eq!(mods(&[KeyCode::RightShift]), Mods::SHIFT);
    assert_eq!(mods(&[KeyCode::LeftAlt]), Mods::ALT);
    assert_eq!(mods(&[KeyCode::RightAlt]), Mods::ALT);
    assert_eq!(mods(&[KeyCode::LeftControl]), Mods::CTRL);
    assert_eq!(mods(&[KeyCode::RightControl]), Mods::CTRL);
    assert_eq!(mods(&[KeyCode::LeftSuper]), Mods::SUPER);
    assert_eq!(mods(&[KeyCode::RightSuper]), Mods::SUPER);
    assert_eq!(
        mods(&[KeyCode::RightSuper, KeyCode::B, KeyCode::LeftShift, KeyCode::RightShift]),
        Mods::SHIFT | Mods::SUPER
    );
}

#[test]
fn the_first_pressed_key_takes_the_text() {
    let keyboard = keyboard(&[], &[KeyCode::B, KeyCode::A], &[KeyCode::LeftShift]);
    let (inputs, sent) = type_in("AB", &keyboard, b"x");
    assert_eq!(sent, b"xx");
    assert_eq!(inputs.len(), 2);
    assert_eq!(inputs[0].key, Key::A);
    assert_eq!(inputs[0].text.as_deref(), Some("AB"));
    assert_eq!(inputs[0].action, key::Action::Press);
    assert_eq!(inputs[0].mods.bits(), Mods::SHIFT);
    assert_eq!(inputs[0].consumed.bits(), Mods::SHIFT);
    assert_eq!(inputs[0].unshifted, 'a');
    assert_eq!(inputs[1].key, Key::B);
    assert_eq!(inputs[1].text, None);
}

#[test]
fn special_keys_consume_nothing() {
    let keyboard = keyboard(&[], &[KeyCode::Up], &[KeyCode::LeftShift, KeyCode::LeftControl]);
    let (inputs, _) = type_in("", &keyboard, b"");
    assert_eq!(inputs[0].key, Key::ArrowUp);
    assert_eq!(inputs[0].mods.bits(), Mods::SHIFT | Mods::CTRL);
    assert_eq!(inputs[0].consumed.bits(), 0);
    assert_eq!(inputs[0].unshifted, '\0');
    assert_eq!(inputs[0].text, None);
}

#[test]
fn a_release_comes_without_text_and_before_a_press() {
    let keyboard = keyboard(&[KeyCode::A], &[KeyCode::A], &[]);
    let (inputs, sent) = type_in("a", &keyboard, b"");
    assert_eq!(inputs.len(), 1);
    assert_eq!(inputs[0].action, key::Action::Release);
    assert_eq!(inputs[0].text, None);
    assert_eq!(sent, b"a");
}

#[test]
fn text_that_no_key_took_is_sent_as_it_is() {
    let (inputs, sent) = type_in("ü€", &keyboard(&[], &[], &[KeyCode::A]), b"x");
    assert!(inputs.is_empty());
    assert_eq!(sent, "ü€".as_bytes());
    let (_, sent) = type_in("a", &keyboard(&[KeyCode::A], &[], &[]), b"x");
    assert_eq!(sent, b"x");
}

#[test]
fn a_key_that_encodes_to_nothing_still_takes_the_text() {
    let (inputs, sent) = type_in("a", &keyboard(&[], &[KeyCode::A], &[]), b"");
    assert_eq!(inputs[0].text.as_deref(), Some("a"));
    assert!(sent.is_empty());
}

#[test]
fn a_failed_key_ends_the_keyboard() {
    let mut response = b"before".to_vec();
    let keyboard = keyboard(&[], &[KeyCode::A, KeyCode::B, KeyCode::C], &[]);
    let (calls, res) =
        handle_keyboard_input("abc".to_string(), &keyboard, &mut response, 0, |calls, _| {
            if calls == 0 {
                (calls + 1, Ok(b"!".to_vec()))
            } else {
                (calls + 1, Err(Error::OutOfMemory))
            }
        });
    assert_eq!(res, Err(Error::OutOfMemory));
    assert_eq!(calls, 2);
    assert_eq!(response, b"before!");
}

const DOWN: ButtonState = ButtonState { down: true, pressed: false, released: false };
const PRESSED: ButtonState = ButtonState { down: true, pressed: true, released: false };
const RELEASED: ButtonState = ButtonState { down: false, pressed: true, released: true };

fn event(action: Action, button: Option<Button>) -> MouseInput {
    MouseInput::Event { action, button }
}

#[test]
fn buttons_make_events_in_order() {
    let buttons = Buttons { left: PRESSED, right: RELEASED, middle: PRESSED };
    assert_eq!(
        events_of(&buttons, true),
        [
            event(Action::Press, Some(Button::Left)),
            event(Action::Release, Some(Button::Right)),
            event(Action::Press, Some(Button::Middle)),
            event(Action::Motion, Some(Button::Left)),
        ]
    );
    assert!(events_of(&NO_BUTTONS, false).is_empty());
}

#[test]
fn motion_comes_with_the_button_that_is_held() {
    let held = |buttons: Buttons| match events_of(&buttons, true).pop() {
        Some(MouseInput::Event { action: Action::Motion, button }) => button,
        other => panic!("{other:?}"),
    };
    assert_eq!(held(NO_BUTTONS), None);
    assert_eq!(held(Buttons { middle: DOWN, ..NO_BUTTONS }), Some(Button::Middle));
    assert_eq!(held(Buttons { middle: DOWN, right: DOWN, ..NO_BUTTONS }), Some(Button::Right));
    assert!(!NO_BUTTONS.any_down());
    assert!(Buttons { right: DOWN, ..NO_BUTTONS }.any_down());
    assert_eq!(NO_BUTTONS.first_held(), None);
}

/// The events that were encoded, and what came of them.
fn use_mouse(
    buttons: Buttons,
    moved: bool,
    wheel: Option<Wheel>,
    set: Option<u16>,
) -> (Vec<MouseInput>, Result<Option<ScrollViewport>>) {
    let mut response = b">".to_vec();
    let (inputs, res) = handle_mouse_input(
        &buttons,
        moved,
        wheel,
        &mut response,
        Vec::new(),
        |mut inputs: Vec<MouseInput>, input| {
            inputs.push(input);
            (inputs, Ok(b"m".to_vec()))
        },
        |_, mode| {
            if mode.0 == Mode::X10_MOUSE {
                Err(Error::InvalidValue)
            } else {
                Ok(Some(mode.0) == set)
            }
        },
    );
    assert_eq!(response.len(), 1 + inputs.len());
    (inputs, res)
}

#[test]
fn the_wheel_scrolls_the_viewport() {
    let wheel = Some(Wheel { up: true, lines: -2 });
    let (inputs, res) = use_mouse(NO_BUTTONS, false, wheel, None);
    assert!(inputs.is_empty());
    assert_eq!(res, Ok(Some(ScrollViewport::Delta(-2))));
    assert_eq!(use_mouse(NO_BUTTONS, true, None, None).1, Ok(None));
}

#[test]
fn a_tracking_program_gets_the_wheel() {
    for mode in [Mode::NORMAL_MOUSE, Mode::BUTTON_MOUSE, Mode::ANY_MOUSE] {
        let wheel = Some(Wheel { up: false, lines: 5 });
        let (inputs, res) = use_mouse(NO_BUTTONS, true, wheel, Some(mode));
        assert_eq!(res, Ok(None));
        assert_eq!(
            inputs,
            [
                event(Action::Motion, None),
                MouseInput::WheelPress(Button::Five),
                MouseInput::WheelRelease,
            ]
        );
    }
    let wheel = Some(Wheel { up: true, lines: -5 });
    let (inputs, _) = use_mouse(NO_BUTTONS, false, wheel, Some(Mode::ANY_MOUSE));
    assert_eq!(inputs, [MouseInput::WheelPress(Button::Four), MouseInput::WheelRelease]);
}

#[test]
fn a_failed_event_ends_the_mouse() {
    let mut response = b">".to_vec();
    let (_, res) = handle_mouse_input(
        &Buttons { left: PRESSED, right: PRESSED, middle: IDLE },
        false,
        Some(Wheel { up: true, lines: -1 }),
        &mut response,
        (),
        |_, input| match input {
            MouseInput::Event { button: Some(Button::Left), .. } => ((), Ok(b"l".to_vec())),
            _ => ((), Err(Error::InvalidValue)),
        },
        |_, _| unreachable!(),
    );
    assert_eq!(res, Err(Error::InvalidValue));
    assert_eq!(response, b">l");
}

/// A call to the engine.
#[derive(Clone, Debug, PartialEq)]
enum Call {
    Action(u32),
    Key(u32),
    Mods(u16),
    ConsumedMods(u16),
    Codepoint(u32),
    Text(Option<String>),
    Position(Position),
    Button(u32),
    NoButton,
    Sync(usize),
    Size(EncoderSize),
    AnyButton(bool),
    TrackLastCell(bool),
    Encode(usize, usize),
}

/// The calls, and one more.
fn and(calls: &Vec<Call>, call: Call) -> Vec<Call> {
    let mut calls = calls.clone();
    calls.push(call);
    calls
}

/// An encoder of the given bytes that notes its calls.
fn encoding(
    bytes: &'static [u8],
) -> impl Fn(&Vec<Call>, usize, usize, usize) -> (Vec<Call>, BufReply<u8>) {
    move |calls, encoder, event, room| {
        let calls = and(calls, Call::Encode(encoder, event));
        if bytes.len() <= room {
            (calls, BufReply { code: 0, len: bytes.len(), out: bytes.to_vec() })
        } else {
            (calls, BufReply { code: -3, len: bytes.len(), out: vec![] })
        }
    }
}

#[test]
fn key_inputs_are_encoded() {
    let mut event = key::Event::new(made(3)).unwrap();
    let mut encoder = key::Encoder::new(made(4)).unwrap();
    let input = KeyInput {
        action: key::Action::Press,
        key: Key::A,
        mods: Mods::from_bits_retain(Mods::SHIFT),
        consumed: Mods::from_bits_retain(Mods::SHIFT),
        unshifted: 'a',
        text: Some("A".to_string()),
    };
    let mut calls = Vec::new();
    let res = encode_key_input(
        &mut event,
        &mut encoder,
        &terminal(),
        input,
        &mut calls,
        |calls, _, action| and(calls, Call::Action(action)),
        |calls, _, key| and(calls, Call::Key(key)),
        |calls, _, mods| and(calls, Call::Mods(mods)),
        |calls, _, consumed| and(calls, Call::ConsumedMods(consumed)),
        |calls, _, codepoint| and(calls, Call::Codepoint(codepoint)),
        |calls, _, text| and(calls, Call::Text(text.map(str::to_string))),
        |calls, encoder, terminal| {
            assert_eq!(encoder, 4);
            and(calls, Call::Sync(terminal))
        },
        encoding(b"A"),
    );
    assert_eq!(res, Ok(b"A".to_vec()));
    assert_eq!(event.utf8(), Some("A"));
    // The event is complete and the encoder knows the terminal's modes before anything is encoded.
    assert_eq!(
        calls[..8],
        [
            Call::Action(1),
            Call::Key(20),
            Call::Mods(1),
            Call::ConsumedMods(1),
            Call::Codepoint(0x61),
            Call::Text(Some("A".to_string())),
            Call::Sync(0x77),
            Call::Encode(4, 3),
        ]
    );
    assert!(calls[8..].iter().all(|call| *call == Call::Encode(4, 3)));
}

#[test]
fn mouse_inputs_are_prepared_in_order() {
    let mut event_object = mouse::Event::new(made(3)).unwrap();
    let mut encoder = mouse::Encoder::new(made(4)).unwrap();
    let at = Position { x_bits: 1, y_bits: 2 };
    let size = EncoderSize {
        screen_width: 1,
        screen_height: 2,
        cell_width: 3,
        cell_height: 4,
        padding_top: 5,
        padding_bottom: 6,
        padding_right: 7,
        padding_left: 8,
    };
    let mut calls = Vec::new();
    prepare_mouse_input(
        &mut event_object,
        &mut encoder,
        &terminal(),
        Mods::from_bits_retain(Mods::ALT),
        at,
        size,
        &Buttons { middle: DOWN, ..NO_BUTTONS },
        &mut calls,
        |calls, _, mods| and(calls, Call::Mods(mods)),
        |calls, _, position| and(calls, Call::Position(position)),
        |calls, _, terminal| and(calls, Call::Sync(terminal)),
        |calls, _, option, value| {
            assert_eq!(option, EncoderOption::Size);
            and(calls, Call::Size(value))
        },
        |calls, _, option, value| {
            assert_eq!(option, EncoderOption::AnyButtonPressed);
            and(calls, Call::AnyButton(value))
        },
        |calls, _, option, value| {
            assert_eq!(option, EncoderOption::TrackLastCell);
            and(calls, Call::TrackLastCell(value))
        },
    );
    assert_eq!(
        calls,
        [
            Call::Mods(Mods::ALT),
            Call::Position(at),
            Call::Sync(0x77),
            Call::Size(size),
            Call::AnyButton(true),
            Call::TrackLastCell(true),
        ]
    );
}

#[test]
fn mouse_inputs_are_encoded() {
    let mut event_object = mouse::Event::new(made(3)).unwrap();
    let mut encoder = mouse::Encoder::new(made(4)).unwrap();
    for (input, expected) in [
        (event(Action::Motion, None), vec![Call::Action(2), Call::NoButton]),
        (event(Action::Press, Some(Button::Left)), vec![Call::Action(0), Call::Button(1)]),
        // The wheel's button comes before its action, and stays for the release.
        (MouseInput::WheelPress(Button::Four), vec![Call::Button(4), Call::Action(0)]),
        (MouseInput::WheelRelease, vec![Call::Action(1)]),
    ] {
        let count = expected.len();
        let mut calls = Vec::new();
        let res = encode_mouse_input(
            &mut event_object,
            &mut encoder,
            input,
            &mut calls,
            |calls, _, action| and(calls, Call::Action(action)),
            |calls, _, button| and(calls, Call::Button(button)),
            |calls, _| and(calls, Call::NoButton),
            encoding(b"\x1b[M"),
        );
        assert_eq!(res, Ok(b"\x1b[M".to_vec()));
        assert_eq!(calls[..count], expected);
        assert!(calls.len() > count);
        assert!(calls[count..].iter().all(|call| *call == Call::Encode(4, 3)));
    }
    let res = encode_mouse_input(
        &mut event_object,
        &mut encoder,
        event(Action::Motion, None),
        &mut (),
        |_, _, _| (),
        |_, _, _| panic!("no button is held"),
        |_, raw| assert_eq!(raw, 3),
        |_, _, _, _| ((), BufReply { code: -2, len: 0, out: vec![] }),
    );
    assert_eq!(res, Err(Error::InvalidValue));
}

#[test]
fn events_are_encoded_one_after_the_other() {
    // Every event sees the engine as the one before it left it.
    let mut response = Vec::new();
    let keys = keyboard(&[], &[KeyCode::C, KeyCode::A, KeyCode::B], &[]);
    let (last, res) =
        handle_keyboard_input(String::new(), &keys, &mut response, 0u8, |count, _| {
            (count + 1, Ok(vec![count]))
        });
    assert_eq!((last, res), (3, Ok(())));
    assert_eq!(response, [0, 1, 2]);
    let (last, res) = handle_mouse_input(
        &Buttons { left: PRESSED, ..NO_BUTTONS },
        true,
        Some(Wheel { up: true, lines: -1 }),
        &mut response,
        last,
        |count, _| (count + 1, Ok(vec![count])),
        // The modes are asked for once the buttons and the motion are encoded.
        |&count, _| Ok(count == 5),
    );
    assert_eq!((last, res), (7, Ok(None)));
    assert_eq!(response, [0, 1, 2, 3, 4, 5, 6]);
}

#[test]
fn input_only_appends() {
    let mut response = b"front".to_vec();
    let keys = keyboard(&[], &[KeyCode::A], &[]);
    let ((), res) = handle_keyboard_input("a".to_string(), &keys, &mut response, (), |_, _| {
        ((), Ok(b"k".to_vec()))
    });
    assert_eq!(res, Ok(()));
    let wheel = Some(Wheel { up: true, lines: -1 });
    let ((), res) = handle_mouse_input(
        &NO_BUTTONS,
        true,
        wheel,
        &mut response,
        (),
        |_, _| ((), Ok(b"m".to_vec())),
        |_, mode| Ok(mode.0 == Mode::X10_MOUSE),
    );
    assert_eq!(res, Ok(None));
    assert_eq!(response, b"frontkmmm");
}
