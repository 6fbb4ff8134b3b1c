use libghostty_vt::buffer::{encode_to_buf, encode_to_vec, BufReply};
use libghostty_vt::error::Error;
use libghostty_vt::key::{self, Key, KittyKeyFlags, Mods, OptionAsAlt};
use libghostty_vt::memory::NewReply;
use libghostty_vt::mouse::{self, EncoderSize, Position, TrackingMode};
use libghostty_vt::terminal::{Options, Terminal};
use std::cell::{Cell, RefCell};

fn made(raw: usize) -> impl FnOnce(usize) -> NewReply {
    move |_| NewReply { code: 0, raw }
}

fn terminal() -> Terminal {
    let opts = Options { cols: 80, rows: 24, max_scrollback: 0 };
    Terminal::new(opts, |_, _| NewReply { code: 0, raw: 0x77 }).unwrap()
}

/// An encoder of an event that always comes to the given bytes.
fn encoder_of(
    bytes: &'static [u8],
) -> impl Fn(&(), usize, usize, usize) -> ((), BufReply<u8>) {
    move |_, _, _, room| {
        if bytes.len() <= room {
            ((), BufReply { code: 0, len: bytes.len(), out: bytes.to_vec() })
        } else {
            ((), BufReply { code: -3, len: bytes.len(), out: Vec::new() })
        }
    }
}

#[test]
fn encodings_are_appended() {
    let mut vec = b"front".to_vec();
    assert_eq!(encode_to_vec(1, 2, &mut vec, &mut (), encoder_of(b"\x1b[A")), Ok(()));
    assert_eq!(vec, b"front\x1b[A");
    assert_eq!(encode_to_vec(1, 2, &mut vec, &mut (), encoder_of(b"")), Ok(()));
    assert_eq!(vec, b"front\x1b[A");
}

#[test]
fn a_vector_grows_to_hold_an_encoding() {
    let long: &'static [u8] = &[b'x'; 300];
    for room in [0, 1, 8, 299, 300] {
        let mut vec = Vec::with_capacity(room);
        assert_eq!(encode_to_vec(1, 2, &mut vec, &mut (), encoder_of(long)), Ok(()));
        assert_eq!(vec, long);
    }
}

#[test]
fn the_first_try_uses_the_free_capacity() {
    let rooms = RefCell::new(Vec::new());
    let mut vec = Vec::with_capacity(64);
    vec.extend_from_slice(b"abcd");
    let free = vec.capacity() - 4;
    let res = encode_to_vec(1, 2, &mut vec, &mut (), |_, encoder, event, room| {
        assert_eq!((encoder, event), (1, 2));
        rooms.borrow_mut().push(room);
        if rooms.borrow().len() == 1 {
            ((), BufReply { code: -3, len: 200, out: vec![] })
        } else {
            ((), BufReply { code: 0, len: 1, out: vec![b'!'] })
        }
    });
    assert_eq!(res, Ok(()));
    assert_eq!(*rooms.borrow(), [free, 200]);
    assert_eq!(vec, b"abcd!");
}

#[test]
fn a_failed_encoding_leaves_the_vector() {
    let mut vec = b"keep".to_vec();
    let failing = |code: i32, len: usize| {
        move |_: &(), _: usize, _: usize, _: usize| ((), BufReply { code, len, out: vec![] })
    };
    assert_eq!(encode_to_vec(1, 2, &mut vec, &mut (), failing(-2, 0)), Err(Error::InvalidValue));
    assert_eq!(
        encode_to_vec(1, 2, &mut vec, &mut (), failing(-3, 9)),
        Err(Error::OutOfSpace { required: 9 })
    );
    assert_eq!(vec, b"keep");
}

#[test]
fn encodings_fill_the_front_of_a_buffer() {
    let mut buf = [b'-'; 5];
    assert_eq!(encode_to_buf(1, 2, &mut buf, &mut (), encoder_of(b"abc")), Ok(3));
    assert_eq!(&buf, b"abc--");
    assert_eq!(
        encode_to_buf(1, 2, &mut buf[..2], &mut (), encoder_of(b"xyz")),
        Err(Error::OutOfSpace { required: 3 })
    );
    assert_eq!(&buf, b"abc--");
}

#[test]
fn key_events_keep_their_text() {
    let mut event = key::Event::new(made(3)).unwrap();
    assert_eq!(event.utf8(), None);
    event.set_utf8(Some("ä".to_string()), &mut (), |_, raw, text| {
        assert_eq!((raw, text), (3, Some("ä")));
    });
    assert_eq!(event.utf8(), Some("ä"));
    event.set_utf8(None, &mut (), |_, _, text| assert_eq!(text, None));
    assert_eq!(event.utf8(), None);
}

#[test]
fn key_events_are_set_and_read() {
    let mut event = key::Event::new(made(3)).unwrap();
    let seen = Cell::new(0);
    let note = |value: u32| {
        let seen = &seen;
        move |_: &(), raw: usize, given: u32| {
            assert_eq!((raw, given), (3, value));
            seen.set(seen.get() + 1);
        }
    };
    let note16 = |value: u16| {
        let seen = &seen;
        move |_: &(), raw: usize, given: u16| {
            assert_eq!((raw, given), (3, value));
            seen.set(seen.get() + 1);
        }
    };
    event
        .set_action(key::Action::Press, &mut (), note(1))
        .set_key(Key::A, &mut (), note(20))
        .set_mods(Mods::from_bits_retain(Mods::CTRL), &mut (), note16(2))
        .set_consumed_mods(Mods::empty(), &mut (), note16(0))
        .set_unshifted_codepoint('a', &mut (), note(0x61))
        .set_composing(true, &mut (), |_, _, composing| assert!(composing));
    assert_eq!(seen.get(), 5);
    assert_eq!(event.action(&(), |_, _| 2), key::Action::Repeat);
    assert_eq!(event.key(&(), |_, _| 20), Key::A);
    assert_eq!(event.mods(&(), |_, _| 5), Mods::from_bits_retain(Mods::SHIFT | Mods::ALT));
    assert_eq!(event.consumed_mods(&(), |_, _| 1), Mods::from_bits_retain(Mods::SHIFT));
    assert!(event.is_composing(&(), |_, _| true));
    assert_eq!(event.unshifted_codepoint(&(), |_, _| 0x20ac), '€');
    assert_eq!(event.unshifted_codepoint(&(), |_, _| 0), '\0');
}

#[test]
fn key_encoders_take_options() {
    let mut encoder = key::Encoder::new(made(4)).unwrap();
    let seen = RefCell::new(Vec::new());
    let flag = |_: &(), _: usize, option: key::EncoderOption, value: bool| {
        seen.borrow_mut().push((option, value));
    };
    encoder
        .set_options_from_terminal(&terminal(), &mut (), |_, raw, terminal| {
            assert_eq!((raw, terminal), (4, 0x77));
        })
        .set_cursor_key_application(true, &mut (), flag)
        .set_keypad_key_application(false, &mut (), flag)
        .set_ignore_keypad_with_numlock(true, &mut (), flag)
        .set_alt_esc_prefix(false, &mut (), flag)
        .set_modify_other_keys_state_2(true, &mut (), flag)
        .set_kitty_flags(KittyKeyFlags::from_bits_retain(5), &mut (), |_, _, option, value| {
            assert_eq!((option, value), (key::EncoderOption::KittyFlags, 5));
        })
        .set_macos_option_as_alt(OptionAsAlt::Left, &mut (), |_, _, option, value| {
            assert_eq!(option, key::EncoderOption::MacosOptionAsAlt);
            assert_eq!(value, OptionAsAlt::Left.code());
        });
    assert_eq!(
        *seen.borrow(),
        [
            (key::EncoderOption::CursorKeyApplication, true),
            (key::EncoderOption::KeypadKeyApplication, false),
            (key::EncoderOption::IgnoreKeypadWithNumlock, true),
            (key::EncoderOption::AltEscPrefix, false),
            (key::EncoderOption::ModifyOtherKeysState2, true),
        ]
    );
}

#[test]
fn key_encoders_encode() {
    let mut encoder = key::Encoder::new(made(4)).unwrap();
    let event = key::Event::new(made(3)).unwrap();
    let mut vec = Vec::new();
    let encode = |engine: &(), encoder: usize, event: usize, room: usize| {
        assert_eq!((encoder, event), (4, 3));
        encoder_of(b"\x1bOP")(engine, encoder, event, room)
    };
    assert_eq!(encoder.encode_to_vec(&event, &mut vec, &mut (), encode), Ok(()));
    assert_eq!(vec, b"\x1bOP");
    let mut buf = [0u8; 2];
    assert_eq!(
        encoder.encode(&event, &mut buf, &mut (), encode),
        Err(Error::OutOfSpace { required: 3 })
    );
    let mut buf = [0u8; 4];
    assert_eq!(encoder.encode(&event, &mut buf, &mut (), encode), Ok(3));
    assert_eq!(&buf, b"\x1bOP\0");
}

#[test]
fn keys_have_numbers() {
    for code in 0..176 {
        assert_eq!(Key::from_code(code).unwrap().code(), code);
    }
    assert_eq!(Key::from_code(176), Err(Error::InvalidValue));
    assert_eq!(Key::Unidentified.code(), 0);
    assert_eq!(Key::A.code(), 20);
    assert_eq!(Key::Enter.code(), 58);
    assert_eq!(Key::Escape.code(), 120);
    assert_eq!(Key::F1.code(), 121);
    assert_eq!(Key::Paste.code(), 175);
}

#[test]
fn small_enums_have_numbers() {
    for code in 0..3 {
        assert_eq!(key::Action::from_code(code).unwrap().code(), code);
        assert_eq!(mouse::Action::from_code(code).unwrap().code(), code);
    }
    assert_eq!(key::Action::Release.code(), 0);
    assert_eq!(key::Action::Press.code(), 1);
    assert_eq!(mouse::Action::Press.code(), 0);
    assert_eq!(mouse::Action::Motion.code(), 2);
    assert!(key::Action::from_code(3).is_err());
    assert!(mouse::Action::from_code(3).is_err());
    for code in 0..4 {
        assert_eq!(OptionAsAlt::from_code(code).unwrap().code(), code);
    }
    assert!(OptionAsAlt::from_code(4).is_err());
    for code in 0..5 {
        assert_eq!(TrackingMode::from_code(code).unwrap().code(), code);
        assert_eq!(mouse::Format::from_code(code).unwrap().code(), code);
    }
    assert!(TrackingMode::from_code(5).is_err());
    assert!(mouse::Format::from_code(5).is_err());
    for code in 0..12 {
        assert_eq!(mouse::Button::from_code(code).unwrap().code(), code);
    }
    assert!(mouse::Button::from_code(12).is_err());
}

#[test]
fn modifier_sets_contain_their_parts() {
    let mut mods = Mods::empty();
    assert_eq!(mods.bits(), 0);
    mods.insert(Mods::from_bits_retain(Mods::SHIFT));
    mods.insert(Mods::from_bits_retain(Mods::SUPER));
    assert_eq!(mods.bits(), 9);
    assert!(mods.contains(Mods::from_bits_retain(Mods::SHIFT)));
    assert!(!mods.contains(Mods::from_bits_retain(Mods::SHIFT | Mods::ALT)));
    assert!(mods.contains(Mods::empty()));
    assert!(Mods::all().contains(mods));
    assert_eq!(mods.union(Mods::from_bits_retain(Mods::ALT)).bits(), 13);
    assert_eq!(KittyKeyFlags::empty().bits(), 0);
    assert!(KittyKeyFlags::all().contains(KittyKeyFlags::from_bits_retain(31)));
    let mut flags = KittyKeyFlags::from_bits_retain(1);
    flags.insert(KittyKeyFlags::from_bits_retain(4));
    assert_eq!(flags.bits(), 5);
}

#[test]
fn mouse_events_are_set_and_read() {
    let mut event = mouse::Event::new(made(5)).unwrap();
    let at = Position { x_bits: 1.5f32.to_bits(), y_bits: 2.5f32.to_bits() };
    event
        .set_action(mouse::Action::Motion, &mut (), |_, raw, action| assert_eq!((raw, action), (5, 2)))
        .set_button(
            Some(mouse::Button::Left),
            &mut (),
            |_, _, button| assert_eq!(button, mouse::Button::Left.code()),
            |_, _| panic!("a button was given"),
        )
        .set_button(
            None,
            &mut (),
            |_, _, _| panic!("no button was given"),
            |_, raw| assert_eq!(raw, 5),
        )
        .set_mods(Mods::from_bits_retain(Mods::ALT), &mut (), |_, _, mods| assert_eq!(mods, 4))
        .set_position(at, &mut (), |_, _, position| assert_eq!(position, at));
    assert_eq!(event.action(&(), |_, _| 1), mouse::Action::Release);
    assert_eq!(event.button(&(), |_, _| Some(1)), Some(mouse::Button::Left));
    assert_eq!(event.button(&(), |_, _| None), None);
    assert_eq!(event.mods(&(), |_, _| 8), Mods::from_bits_retain(Mods::SUPER));
    assert_eq!(event.position(&(), |_, _| at), at);
}

#[test]
fn mouse_encoders_take_options() {
    let mut encoder = mouse::Encoder::new(made(6)).unwrap();
    let size = EncoderSize {
        screen_width: 800,
        screen_height: 600,
        cell_width: 8,
        cell_height: 16,
        padding_top: 1,
        padding_bottom: 2,
        padding_right: 3,
        padding_left: 4,
    };
    encoder
        .set_options_from_terminal(&terminal(), &mut (), |_, raw, terminal| {
            assert_eq!((raw, terminal), (6, 0x77));
        })
        .set_tracking_mode(TrackingMode::Any, &mut (), |_, _, option, value| {
            assert_eq!((option, value), (mouse::EncoderOption::TrackingMode, 4));
        })
        .set_format(mouse::Format::Sgr, &mut (), |_, _, option, value| {
            assert_eq!((option, value), (mouse::EncoderOption::Format, 2));
        })
        .set_size(size, &mut (), |_, _, option, value| {
            assert_eq!((option, value), (mouse::EncoderOption::Size, size));
        })
        .set_any_button_pressed(true, &mut (), |_, _, option, value| {
            assert_eq!((option, value), (mouse::EncoderOption::AnyButtonPressed, true));
        })
        .set_track_last_cell(false, &mut (), |_, _, option, value| {
            assert_eq!((option, value), (mouse::EncoderOption::TrackLastCell, false));
        })
        .reset(&mut (), |_, raw| assert_eq!(raw, 6));
    let event = mouse::Event::new(made(5)).unwrap();
    let mut vec = b">".to_vec();
    let encode = encoder_of(b"\x1b[<0;1;1M");
    assert_eq!(encoder.encode_to_vec(&event, &mut vec, &mut (), encode), Ok(()));
    assert_eq!(vec, b">\x1b[<0;1;1M");
    let mut buf = [0u8; 9];
    assert_eq!(encoder.encode(&event, &mut buf, &mut (), encoder_of(b"\x1b[<0;1;1M")), Ok(9));
    assert_eq!(&buf, b"\x1b[<0;1;1M");
}

#[test]
fn the_reported_size_is_enough_for_a_buffer() {
    let mut encoder = key::Encoder::new(made(4)).unwrap();
    let event = key::Event::new(made(3)).unwrap();
    let bytes = b"\x1b[97;5u";
    let mut tries: Vec<usize> = Vec::new();
    let encode = |tries: &Vec<usize>, _: usize, _: usize, room: usize| {
        let mut tries = tries.clone();
        tries.push(room);
        if bytes.len() <= room {
            (tries, BufReply { code: 0, len: bytes.len(), out: bytes.to_vec() })
        } else {
            (tries, BufReply { code: -3, len: bytes.len(), out: vec![] })
        }
    };
    let mut small = [b'-'; 3];
    let Err(Error::OutOfSpace { required }) =
        encoder.encode(&event, &mut small, &mut tries, encode)
    else {
        panic!("three bytes are not enough");
    };
    assert_eq!((required, &small), (7, b"---"));
    let mut buf = vec![b'-'; required + 1];
    assert_eq!(encoder.encode(&event, &mut buf, &mut tries, encode), Ok(required));
    assert_eq!(buf, b"\x1b[97;5u-");
    assert_eq!(tries, [3, 8]);
}

/// What a key event is made of, outside of the library.
#[derive(Clone, Debug, Default, PartialEq)]
struct Stored {
    action: u32,
    key: u32,
    mods: u16,
    consumed: u16,
    composing: bool,
    codepoint: u32,
    text: Option<String>,
}

#[test]
fn text_leaves_the_rest_of_a_key_event_alone() {
    let mut event = key::Event::new(made(3)).unwrap();
    let mut engine = Stored::default();
    event
        .set_action(key::Action::Press, &mut engine, |s, _, action| {
            Stored { action, ..s.clone() }
        })
        .set_key(Key::A, &mut engine, |s, _, key| Stored { key, ..s.clone() })
        .set_mods(Mods::from_bits_retain(Mods::CTRL), &mut engine, |s, _, mods| {
            Stored { mods, ..s.clone() }
        })
        .set_consumed_mods(Mods::from_bits_retain(Mods::SHIFT), &mut engine, |s, _, consumed| {
            Stored { consumed, ..s.clone() }
        })
        .set_composing(true, &mut engine, |s, _, composing| Stored { composing, ..s.clone() })
        .set_unshifted_codepoint('a', &mut engine, |s, _, codepoint| {
            Stored { codepoint, ..s.clone() }
        });
    let before = engine.clone();
    event.set_utf8(Some("Ä".to_string()), &mut engine, |s, _, text| {
        Stored { text: text.map(str::to_string), ..s.clone() }
    });
    assert_eq!(engine, Stored { text: Some("Ä".to_string()), ..before });
    assert_eq!(event.utf8(), Some("Ä"));
    assert_eq!(event.action(&engine, |s, _| s.action), key::Action::Press);
    assert_eq!(event.key(&engine, |s, _| s.key), Key::A);
    assert_eq!(event.mods(&engine, |s, _| s.mods), Mods::from_bits_retain(Mods::CTRL));
    assert_eq!(event.consumed_mods(&engine, |s, _| s.consumed).bits(), Mods::SHIFT);
    assert!(event.is_composing(&engine, |s, _| s.composing));
    assert_eq!(event.unshifted_codepoint(&engine, |s, _| s.codepoint), 'a');
}
