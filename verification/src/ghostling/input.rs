//! Turning keyboard and mouse input into bytes for the pty.
//!
//! The window system says which keys and buttons changed since the last frame. The functions here
//! decide which events that makes and in which order they are encoded; the encoding of one event is
//! a function value, which is handed the engine as the event before left it.
use crate::error::{Error, Result};
use crate::key::{Action as KeyAction, Key, Mods};
use crate::mouse::{Action, Button};
use crate::terminal::{Mode, ScrollViewport};
use vstd::prelude::*;

verus! {

//---------------------------------------
// The keys
//---------------------------------------

/// A key of the window system, the key that it stands for, and the character that it produces with
/// no modifiers on a US layout, which is NUL for keys without a natural one.
#[derive(Clone, Copy, Debug, PartialEq, Eq, Structural)]
pub struct BoundKey {
    /// The X11 key code that the window system uses.
    pub code: u16,
    /// The physical key.
    pub key: Key,
    /// The character without modifiers.
    pub unshifted: char,
}

/// How many keys are looked at.
pub const KEY_COUNT: usize = 74;

/// The key at position `i` of the table.
pub open spec fn key_at(i: usize) -> BoundKey {
    match i {
        0 => BoundKey { code: 0x0041, key: Key::A, unshifted: 'a' },
        1 => BoundKey { code: 0x0042, key: Key::B, unshifted: 'b' },
        2 => BoundKey { code: 0x0043, key: Key::C, unshifted: 'c' },
        3 => BoundKey { code: 0x0044, key: Key::D, unshifted: 'd' },
        4 => BoundKey { code: 0x0045, key: Key::E, unshifted: 'e' },
        5 => BoundKey { code: 0x0046, key: Key::F, unshifted: 'f' },
        6 => BoundKey { code: 0x0047, key: Key::G, unshifted: 'g' },
        7 => BoundKey { code: 0x0048, key: Key::H, unshifted: 'h' },
        8 => BoundKey { code: 0x0049, key: Key::I, unshifted: 'i' },
        9 => BoundKey { code: 0x004a, key: Key::J, unshifted: 'j' },
        10 => BoundKey { code: 0x004b, key: Key::K, unshifted: 'k' },
        11 => BoundKey { code: 0x004c, key: Key::L, unshifted: 'l' },
        12 => BoundKey { code: 0x004d, key: Key::M, unshifted: 'm' },
        13 => BoundKey { code: 0x004e, key: Key::N, unshifted: 'n' },
        14 => BoundKey { code: 0x004f, key: Key::O, unshifted: 'o' },
        15 => BoundKey { code: 0x0050, key: Key::P, unshifted: 'p' },
        16 => BoundKey { code: 0x0051, key: Key::Q, unshifted: 'q' },
        17 => BoundKey { code: 0x0052, key: Key::R, unshifted: 'r' },
        18 => BoundKey { code: 0x0053, key: Key::S, unshifted: 's' },
        19 => BoundKey { code: 0x0054, key: Key::T, unshifted: 't' },
        20 => BoundKey { code: 0x0055, key: Key::U, unshifted: 'u' },
        21 => BoundKey { code: 0x0056, key: Key::V, unshifted: 'v' },
        22 => BoundKey { code: 0x0057, key: Key::W, unshifted: 'w' },
        23 => BoundKey { code: 0x0058, key: Key::X, unshifted: 'x' },
        24 => BoundKey { code: 0x0059, key: Key::Y, unshifted: 'y' },
        25 => BoundKey { code: 0x005a, key: Key::Z, unshifted: 'z' },
        26 => BoundKey { code: 0x0030, key: Key::Digit0, unshifted: '0' },
        27 => BoundKey { code: 0x0031, key: Key::Digit1, unshifted: '1' },
        28 => BoundKey { code: 0x0032, key: Key::Digit2, unshifted: '2' },
        29 => BoundKey { code: 0x0033, key: Key::Digit3, unshifted: '3' },
        30 => BoundKey { code: 0x0034, key: Key::Digit4, unshifted: '4' },
        31 => BoundKey { code: 0x0035, key: Key::Digit5, unshifted: '5' },
        32 => BoundKey { code: 0x0036, key: Key::Digit6, unshifted: '6' },
        33 => BoundKey { code: 0x0037, key: Key::Digit7, unshifted: '7' },
        34 => BoundKey { code: 0x0038, key: Key::Digit8, unshifted: '8' },
        35 => BoundKey { code: 0x0039, key: Key::Digit9, unshifted: '9' },
        36 => BoundKey { code: 0x0020, key: Key::Space, unshifted: ' ' },
        37 => BoundKey { code: 0xff0d, key: Key::Enter, unshifted: '\0' },
        38 => BoundKey { code: 0xff09, key: Key::Tab, unshifted: '\0' },
        39 => BoundKey { code: 0xff08, key: Key::Backspace, unshifted: '\0' },
        40 => BoundKey { code: 0xffff, key: Key::Delete, unshifted: '\0' },
        41 => BoundKey { code: 0xff1b, key: Key::Escape, unshifted: '\0' },
        42 => BoundKey { code: 0xff52, key: Key::ArrowUp, unshifted: '\0' },
        43 => BoundKey { code: 0xff54, key: Key::ArrowDown, unshifted: '\0' },
        44 => BoundKey { code: 0xff51, key: Key::ArrowLeft, unshifted: '\0' },
        45 => BoundKey { code: 0xff53, key: Key::ArrowRight, unshifted: '\0' },
        46 => BoundKey { code: 0xff50, key: Key::Home, unshifted: '\0' },
        47 => BoundKey { code: 0xff57, key: Key::End, unshifted: '\0' },
        48 => BoundKey { code: 0xff55, key: Key::PageUp, unshifted: '\0' },
        49 => BoundKey { code: 0xff56, key: Key::PageDown, unshifted: '\0' },
        50 => BoundKey { code: 0xff63, key: Key::Insert, unshifted: '\0' },
        51 => BoundKey { code: 0x002d, key: Key::Minus, unshifted: '-' },
        52 => BoundKey { code: 0x003d, key: Key::Equal, unshifted: '=' },
        53 => BoundKey { code: 0x005b, key: Key::BracketLeft, unshifted: '[' },
        54 => BoundKey { code: 0x005d, key: Key::BracketRight, unshifted: ']' },
        55 => BoundKey { code: 0x005c, key: Key::Backslash, unshifted: '\\' },
        56 => BoundKey { code: 0x003b, key: Key::Semicolon, unshifted: ';' },
        57 => BoundKey { code: 0x0027, key: Key::Quote, unshifted: '\'' },
        58 => BoundKey { code: 0x002c, key: Key::Comma, unshifted: ',' },
        59 => BoundKey { code: 0x002e, key: Key::Period, unshifted: '.' },
        60 => BoundKey { code: 0x002f, key: Key::Slash, unshifted: '/' },
        61 => BoundKey { code: 0x0060, key: Key::Backquote, unshifted: '`' },
        62 => BoundKey { code: 0xffbe, key: Key::F1, unshifted: '\0' },
        63 => BoundKey { code: 0xffbf, key: Key::F2, unshifted: '\0' },
        64 => BoundKey { code: 0xffc0, key: Key::F3, unshifted: '\0' },
        65 => BoundKey { code: 0xffc1, key: Key::F4, unshifted: '\0' },
        66 => BoundKey { code: 0xffc2, key: Key::F5, unshifted: '\0' },
        67 => BoundKey { code: 0xffc3, key: Key::F6, unshifted: '\0' },
        68 => BoundKey { code: 0xffc4, key: Key::F7, unshifted: '\0' },
        69 => BoundKey { code: 0xffc5, key: Key::F8, unshifted: '\0' },
        70 => BoundKey { code: 0xffc6, key: Key::F9, unshifted: '\0' },
        71 => BoundKey { code: 0xffc7, key: Key::F10, unshifted: '\0' },
        72 => BoundKey { code: 0xffc8, key: Key::F11, unshifted: '\0' },
        _ => BoundKey { code: 0xffc9, key: Key::F12, unshifted: '\0' },
    }
}

/// The key at position `i` of the table.
pub fn bound_key(i: usize) -> (res: BoundKey)
    requires
        i < KEY_COUNT,
    ensures
        res == key_at(i),
{
    match i {
        0 => BoundKey { code: 0x0041, key: Key::A, unshifted: 'a' },
        1 => BoundKey { code: 0x0042, key: Key::B, unshifted: 'b' },
        2 => BoundKey { code: 0x0043, key: Key::C, unshifted: 'c' },
        3 => BoundKey { code: 0x0044, key: Key::D, unshifted: 'd' },
        4 => BoundKey { code: 0x0045, key: Key::E, unshifted: 'e' },
        5 => BoundKey { code: 0x0046, key: Key::F, unshifted: 'f' },
        6 => BoundKey { code: 0x0047, key: Key::G, unshifted: 'g' },
        7 => BoundKey { code: 0x0048, key: Key::H, unshifted: 'h' },
        8 => BoundKey { code: 0x0049, key: Key::I, unshifted: 'i' },
        9 => BoundKey { code: 0x004a, key: Key::J, unshifted: 'j' },
        10 => BoundKey { code: 0x004b, key: Key::K, unshifted: 'k' },
        11 => BoundKey { code: 0x004c, key: Key::L, unshifted: 'l' },
        12 => BoundKey { code: 0x004d, key: Key::M, unshifted: 'm' },
        13 => BoundKey { code: 0x004e, key: Key::N, unshifted: 'n' },
        14 => BoundKey { code: 0x004f, key: Key::O, unshifted: 'o' },
        15 => BoundKey { code: 0x0050, key: Key::P, unshifted: 'p' },
        16 => BoundKey { code: 0x0051, key: Key::Q, unshifted: 'q' },
        17 => BoundKey { code: 0x0052, key: Key::R, unshifted: 'r' },
        18 => BoundKey { code: 0x0053, key: Key::S, unshifted: 's' },
        19 => BoundKey { code: 0x0054, key: Key::T, unshifted: 't' },
        20 => BoundKey { code: 0x0055, key: Key::U, unshifted: 'u' },
        21 => BoundKey { code: 0x0056, key: Key::V, unshifted: 'v' },
        22 => BoundKey { code: 0x0057, key: Key::W, unshifted: 'w' },
        23 => BoundKey { code: 0x0058, key: Key::X, unshifted: 'x' },
        24 => BoundKey { code: 0x0059, key: Key::Y, unshifted: 'y' },
        25 => BoundKey { code: 0x005a, key: Key::Z, unshifted: 'z' },
        26 => BoundKey { code: 0x0030, key: Key::Digit0, unshifted: '0' },
        27 => BoundKey { code: 0x0031, key: Key::Digit1, unshifted: '1' },
        28 => BoundKey { code: 0x0032, key: Key::Digit2, unshifted: '2' },
        29 => BoundKey { code: 0x0033, key: Key::Digit3, unshifted: '3' },
        30 => BoundKey { code: 0x0034, key: Key::Digit4, unshifted: '4' },
        31 => BoundKey { code: 0x0035, key: Key::Digit5, unshifted: '5' },
        32 => BoundKey { code: 0x0036, key: Key::Digit6, unshifted: '6' },
        33 => BoundKey { code: 0x0037, key: Key::Digit7, unshifted: '7' },
        34 => BoundKey { code: 0x0038, key: Key::Digit8, unshifted: '8' },
        35 => BoundKey { code: 0x0039, key: Key::Digit9, unshifted: '9' },
        36 => BoundKey { code: 0x0020, key: Key::Space, unshifted: ' ' },
        37 => BoundKey { code: 0xff0d, key: Key::Enter, unshifted: '\0' },
        38 => BoundKey { code: 0xff09, key: Key::Tab, unshifted: '\0' },
        39 => BoundKey { code: 0xff08, key: Key::Backspace, unshifted: '\0' },
        40 => BoundKey { code: 0xffff, key: Key::Delete, unshifted: '\0' },
        41 => BoundKey { code: 0xff1b, key: Key::Escape, unshifted: '\0' },
        42 => BoundKey { code: 0xff52, key: Key::ArrowUp, unshifted: '\0' },
        43 => BoundKey { code: 0xff54, key: Key::ArrowDown, unshifted: '\0' },
        44 => BoundKey { code: 0xff51, key: Key::ArrowLeft, unshifted: '\0' },
        45 => BoundKey { code: 0xff53, key: Key::ArrowRight, unshifted: '\0' },
        46 => BoundKey { code: 0xff50, key: Key::Home, unshifted: '\0' },
        47 => BoundKey { code: 0xff57, key: Key::End, unshifted: '\0' },
        48 => BoundKey { code: 0xff55, key: Key::PageUp, unshifted: '\0' },
        49 => BoundKey { code: 0xff56, key: Key::PageDown, unshifted: '\0' },
        50 => BoundKey { code: 0xff63, key: Key::Insert, unshifted: '\0' },
        51 => BoundKey { code: 0x002d, key: Key::Minus, unshifted: '-' },
        52 => BoundKey { code: 0x003d, key: Key::Equal, unshifted: '=' },
        53 => BoundKey { code: 0x005b, key: Key::BracketLeft, unshifted: '[' },
        54 => BoundKey { code: 0x005d, key: Key::BracketRight, unshifted: ']' },
        55 => BoundKey { code: 0x005c, key: Key::Backslash, unshifted: '\\' },
        56 => BoundKey { code: 0x003b, key: Key::Semicolon, unshifted: ';' },
        57 => BoundKey { code: 0x0027, key: Key::Quote, unshifted: '\'' },
        58 => BoundKey { code: 0x002c, key: Key::Comma, unshifted: ',' },
        59 => BoundKey { code: 0x002e, key: Key::Period, unshifted: '.' },
        60 => BoundKey { code: 0x002f, key: Key::Slash, unshifted: '/' },
        61 => BoundKey { code: 0x0060, key: Key::Backquote, unshifted: '`' },
        62 => BoundKey { code: 0xffbe, key: Key::F1, unshifted: '\0' },
        63 => BoundKey { code: 0xffbf, key: Key::F2, unshifted: '\0' },
        64 => BoundKey { code: 0xffc0, key: Key::F3, unshifted: '\0' },
        65 => BoundKey { code: 0xffc1, key: Key::F4, unshifted: '\0' },
        66 => BoundKey { code: 0xffc2, key: Key::F5, unshifted: '\0' },
        67 => BoundKey { code: 0xffc3, key: Key::F6, unshifted: '\0' },
        68 => BoundKey { code: 0xffc4, key: Key::F7, unshifted: '\0' },
        69 => BoundKey { code: 0xffc5, key: Key::F8, unshifted: '\0' },
        70 => BoundKey { code: 0xffc6, key: Key::F9, unshifted: '\0' },
        71 => BoundKey { code: 0xffc7, key: Key::F10, unshifted: '\0' },
        72 => BoundKey { code: 0xffc8, key: Key::F11, unshifted: '\0' },
        _ => BoundKey { code: 0xffc9, key: Key::F12, unshifted: '\0' },
    }
}

/// The position of the key with the given code.
spec fn position_of(code: u16) -> int {
    match code {
        0x0041 => 0,
        0x0042 => 1,
        0x0043 => 2,
        0x0044 => 3,
        0x0045 => 4,
        0x0046 => 5,
        0x0047 => 6,
        0x0048 => 7,
        0x0049 => 8,
        0x004a => 9,
        0x004b => 10,
        0x004c => 11,
        0x004d => 12,
        0x004e => 13,
        0x004f => 14,
        0x0050 => 15,
        0x0051 => 16,
        0x0052 => 17,
        0x0053 => 18,
        0x0054 => 19,
        0x0055 => 20,
        0x0056 => 21,
        0x0057 => 22,
        0x0058 => 23,
        0x0059 => 24,
        0x005a => 25,
        0x0030 => 26,
        0x0031 => 27,
        0x0032 => 28,
        0x0033 => 29,
        0x0034 => 30,
        0x0035 => 31,
        0x0036 => 32,
        0x0037 => 33,
        0x0038 => 34,
        0x0039 => 35,
        0x0020 => 36,
        0xff0d => 37,
        0xff09 => 38,
        0xff08 => 39,
        0xffff => 40,
        0xff1b => 41,
        0xff52 => 42,
        0xff54 => 43,
        0xff51 => 44,
        0xff53 => 45,
        0xff50 => 46,
        0xff57 => 47,
        0xff55 => 48,
        0xff56 => 49,
        0xff63 => 50,
        0x002d => 51,
        0x003d => 52,
        0x005b => 53,
        0x005d => 54,
        0x005c => 55,
        0x003b => 56,
        0x0027 => 57,
        0x002c => 58,
        0x002e => 59,
        0x002f => 60,
        0x0060 => 61,
        0xffbe => 62,
        0xffbf => 63,
        0xffc0 => 64,
        0xffc1 => 65,
        0xffc2 => 66,
        0xffc3 => 67,
        0xffc4 => 68,
        0xffc5 => 69,
        0xffc6 => 70,
        0xffc7 => 71,
        0xffc8 => 72,
        0xffc9 => 73,
        _ => -1,
    }
}

/// No key of the window system is in the table twice.
pub proof fn keys_are_bound_once(i: usize, j: usize)
    requires
        i < KEY_COUNT,
        j < KEY_COUNT,
        key_at(i).code == key_at(j).code,
    ensures
        i == j,
{
    assert(position_of(key_at(i).code) == i);
    assert(position_of(key_at(j).code) == j);
}

/// No physical key is in the table twice.
pub proof fn physical_keys_are_bound_once(i: usize, j: usize)
    requires
        i < KEY_COUNT,
        j < KEY_COUNT,
        key_at(i).key == key_at(j).key,
    ensures
        i == j,
{
    assert(key_at(i).key.spec_code() == key_at(j).key.spec_code());
}

/// Whether `code` is among `codes`.
fn holds(codes: &Vec<u16>, code: u16) -> (res: bool)
    ensures
        res == codes@.contains(code),
{
    let mut i: usize = 0;
    while i < codes.len()
        invariant
            i <= codes@.len(),
            forall|j: int| 0 <= j < i ==> codes@[j] != code,
        decreases codes@.len() - i,
    {
        if codes[i] == code {
            return true;
        }
        i += 1;
    }
    false
}

//---------------------------------------
// Modifiers
//---------------------------------------

/// Either of the two keys of a modifier is down.
pub open spec fn either_down(down: Seq<u16>, left: u16, right: u16) -> bool {
    down.contains(left) || down.contains(right)
}

/// The bits of the modifiers whose keys are down.
pub open spec fn mods_down(down: Seq<u16>) -> u16 {
    let shift: u16 = if either_down(down, 0xffe1, 0xffe2) {
        Mods::SHIFT
    } else {
        0
    };
    let alt: u16 = if either_down(down, 0xffe9, 0xffea) {
        Mods::ALT
    } else {
        0
    };
    let ctrl: u16 = if either_down(down, 0xffe3, 0xffe4) {
        Mods::CTRL
    } else {
        0
    };
    let sup: u16 = if either_down(down, 0xffeb, 0xffec) {
        Mods::SUPER
    } else {
        0
    };
    shift | alt | ctrl | sup
}

/// The modifiers whose keys are down, given the codes of all keys that are down.
pub fn keyboard_mods(down: &Vec<u16>) -> (res: Mods)
    ensures
        res.bits == mods_down(down@),
{
    let mut mods = Mods::empty();
    if holds(down, 0xffe1) || holds(down, 0xffe2) {
        mods.insert(Mods::from_bits_retain(Mods::SHIFT));
    }
    if holds(down, 0xffe9) || holds(down, 0xffea) {
        mods.insert(Mods::from_bits_retain(Mods::ALT));
    }
    if holds(down, 0xffe3) || holds(down, 0xffe4) {
        mods.insert(Mods::from_bits_retain(Mods::CTRL));
    }
    if holds(down, 0xffeb) || holds(down, 0xffec) {
        mods.insert(Mods::from_bits_retain(Mods::SUPER));
    }
    assert(forall|x: u16| #[trigger] (0 | x) == x) by (bit_vector);
    assert(forall|x: u16| #[trigger] (x | 0) == x) by (bit_vector);
    mods
}

/// A modifier is set exactly if one of its keys is down, and nothing else is ever set.
pub proof fn mods_tell_the_keys(down: Seq<u16>)
    ensures
        mods_down(down) & Mods::SHIFT == Mods::SHIFT <==> either_down(down, 0xffe1, 0xffe2),
        mods_down(down) & Mods::ALT == Mods::ALT <==> either_down(down, 0xffe9, 0xffea),
        mods_down(down) & Mods::CTRL == Mods::CTRL <==> either_down(down, 0xffe3, 0xffe4),
        mods_down(down) & Mods::SUPER == Mods::SUPER <==> either_down(down, 0xffeb, 0xffec),
        mods_down(down) & 0xfff0 == 0,
{
    assert forall|s: u16, a: u16, c: u16, u: u16|
        (s == 0 || s == 1) && (a == 0 || a == 4) && (c == 0 || c == 2) && (u == 0 || u == 8) implies {
        &&& ((#[trigger] (s | a | c | u)) & 1 == 1 <==> s == 1)
        &&& ((s | a | c | u) & 4 == 4 <==> a == 4)
        &&& ((s | a | c | u) & 2 == 2 <==> c == 2)
        &&& ((s | a | c | u) & 8 == 8 <==> u == 8)
        &&& ((s | a | c | u) & 0xfff0 == 0)
    } by {
        assert((s == 0 || s == 1) && (a == 0 || a == 4) && (c == 0 || c == 2) && (u == 0 || u == 8)
            ==> (((s | a | c | u) & 1 == 1 <==> s == 1) && ((s | a | c | u) & 4 == 4 <==> a == 4)
            && ((s | a | c | u) & 2 == 2 <==> c == 2) && ((s | a | c | u) & 8 == 8 <==> u == 8) && ((
        s | a | c | u) & 0xfff0 == 0))) by (bit_vector);
    }
}

//---------------------------------------
// Keyboard
//---------------------------------------

/// A key event to encode.
#[derive(Debug)]
pub struct KeyInput {
    /// What happened to the key.
    pub action: KeyAction,
    /// The physical key.
    pub key: Key,
    /// The modifiers that are held.
    pub mods: Mods,
    /// The modifiers that already went into the text.
    pub consumed: Mods,
    /// The character without modifiers.
    pub unshifted: char,
    /// The text that came with the key.
    pub text: Option<String>,
}

/// What a [`KeyInput`] holds.
pub ghost struct KeyInputView {
    pub action: KeyAction,
    pub key: Key,
    pub mods: Mods,
    pub consumed: Mods,
    pub unshifted: char,
    pub text: Option<Seq<char>>,
}

impl View for KeyInput {
    type V = KeyInputView;

    open spec fn view(&self) -> KeyInputView {
        KeyInputView {
            action: self.action,
            key: self.key,
            mods: self.mods,
            consumed: self.consumed,
            unshifted: self.unshifted,
            text: match self.text {
                Some(text) => Some(text@),
                None => None,
            },
        }
    }
}

/// What the window system reports of the keyboard for one frame, by the codes of the keys.
#[derive(Debug)]
pub struct Keyboard {
    /// The keys that were released.
    pub released: Vec<u16>,
    /// The keys that were pressed.
    pub pressed: Vec<u16>,
    /// The keys that are down.
    pub down: Vec<u16>,
}

impl Keyboard {
    /// What happened to the key with the given code, if anything: that it was released counts
    /// before that it was pressed.
    pub open spec fn action_of(self, code: u16) -> Option<KeyAction> {
        if self.released@.contains(code) {
            Some(KeyAction::Release)
        } else if self.pressed@.contains(code) {
            Some(KeyAction::Press)
        } else {
            None
        }
    }

    /// The event of the given key, while `text` was typed and not sent yet.
    ///
    /// The text goes with a press and never with a release. Shift is consumed by keys that produce
    /// a character, because the text already accounts for it.
    pub open spec fn event_of(self, bound: BoundKey, action: KeyAction, text: Seq<char>) -> KeyInputView {
        let mods = Mods { bits: mods_down(self.down@) };
        KeyInputView {
            action,
            key: bound.key,
            mods,
            consumed: if bound.unshifted != '\0' && mods.has(Mods { bits: Mods::SHIFT }) {
                Mods { bits: Mods::SHIFT }
            } else {
                Mods { bits: 0 }
            },
            unshifted: bound.unshifted,
            text: if text.len() > 0 && action is Press {
                Some(text)
            } else {
                None
            },
        }
    }
}

/// The text that is left to send after an event: none if the event carried it, or if there are any
/// bytes to send by then.
pub open spec fn text_left(text: Seq<char>, action: KeyAction, bytes: Seq<u8>) -> Seq<char> {
    if text.len() > 0 && action is Press || bytes.len() > 0 {
        Seq::empty()
    } else {
        text
    }
}

/// What the keys from position `i` of the table on do to the bytes `before` and to the engine, while
/// `text` was typed and not sent yet.
///
/// Every key that changed makes an event, in the order of the table. Each is encoded with the engine
/// as the one before it left it, and its bytes are appended. The first error ends it. Text that no
/// event took is appended last.
pub open spec fn typed<S, F: Fn(S, KeyInput) -> (S, Result<Vec<u8>>)>(
    encode: F,
    keyboard: Keyboard,
    i: int,
    text: Seq<char>,
    start: S,
    before: Seq<u8>,
    after: Seq<u8>,
    engine: S,
    res: Result<()>,
) -> bool
    decreases KEY_COUNT - i,
{
    if i >= KEY_COUNT {
        after == before + vstd::utf8::encode_utf8(text) && engine == start && res == Ok::<
            (),
            Error,
        >(())
    } else {
        match keyboard.action_of(key_at(i as usize).code) {
            None => typed(encode, keyboard, i + 1, text, start, before, after, engine, res),
            Some(action) => exists|input: KeyInput, out: (S, Result<Vec<u8>>)|
                {
                    &&& #[trigger] encode.ensures((start, input), out)
                    &&& input@ == keyboard.event_of(key_at(i as usize), action, text)
                    &&& match out.1 {
                        Ok(bytes) => typed(
                            encode,
                            keyboard,
                            i + 1,
                            text_left(text, action, before + bytes@),
                            out.0,
                            before + bytes@,
                            after,
                            engine,
                            res,
                        ),
                        Err(e) => after == before && engine == out.0 && res == Err::<(), Error>(e),
                    }
                },
        }
    }
}

/// Encode the keyboard input of one frame and append the bytes to `response`.
///
/// `typed_text` is what was typed in the frame. It goes with the first key that was pressed. On some
/// platforms the text arrives a frame after the key; if no key took it and no bytes were produced,
/// it is appended as it is, so that input is not dropped.
pub fn handle_keyboard_input<S>(
    typed_text: String,
    keyboard: &Keyboard,
    response: &mut Vec<u8>,
    engine: S,
    encode: impl Fn(S, KeyInput) -> (S, Result<Vec<u8>>),
) -> (res: (S, Result<()>))
    requires
        forall|s: S, input: KeyInput| #[trigger] encode.requires((s, input)),
    ensures
        typed(
            encode,
            *keyboard,
            0,
            typed_text@,
            engine,
            old(response)@,
            final(response)@,
            res.0,
            res.1,
        ),
{
    let ghost before = response@;
    let mut text = typed_text;
    let mut state = engine;
    let mods = keyboard_mods(&keyboard.down);
    let shift = Mods::from_bits_retain(Mods::SHIFT);
    let mut i: usize = 0;
    while i < KEY_COUNT
        invariant
            i <= KEY_COUNT,
            mods.bits == mods_down(keyboard.down@),
            shift.bits == Mods::SHIFT,
            before == old(response)@,
            forall|s: S, input: KeyInput| #[trigger] encode.requires((s, input)),
            forall|after: Seq<u8>, last: S, res: Result<()>| #[trigger]
                typed(encode, *keyboard, i as int, text@, state, response@, after, last, res)
                    ==> typed(
                    encode,
                    *keyboard,
                    0,
                    typed_text@,
                    engine,
                    before,
                    after,
                    last,
                    res,
                ),
        decreases KEY_COUNT - i,
    {
        let bound = bound_key(i);
        let ghost text_then = text@;
        let ghost state_then = state;
        let ghost response_then = response@;
        let released = holds(&keyboard.released, bound.code);
        if released || holds(&keyboard.pressed, bound.code) {
            let action = if released {
                KeyAction::Release
            } else {
                KeyAction::Press
            };
            let carried = !text.as_str().is_empty() && !released;
            let input = KeyInput {
                action,
                key: bound.key,
                mods,
                consumed: if bound.unshifted != '\0' && mods.contains(shift) {
                    shift
                } else {
                    Mods::empty()
                },
                unshifted: bound.unshifted,
                text: if carried {
                    Some(text.clone())
                } else {
                    None
                },
            };
            let ghost event = input;
            assert(input@ == keyboard.event_of(key_at(i), action, text@));
            let out = encode(state, input);
            let ghost answer = out;
            assert(encode.ensures((state_then, event), answer));
            let (next, encoded) = out;
            state = next;
            match encoded {
                Ok(bytes) => {
                    response.extend_from_slice(bytes.as_slice());
                    assert(response@ =~= response_then + bytes@);
                    if carried || response.len() > 0 {
                        text = String::new();
                    }
                    assert(text@ =~= text_left(text_then, action, response@));
                    assert forall|after: Seq<u8>, last: S, res: Result<()>| #[trigger]
                        typed(
                            encode,
                            *keyboard,
                            i + 1,
                            text@,
                            state,
                            response@,
                            after,
                            last,
                            res,
                        ) implies typed(
                        encode,
                        *keyboard,
                        0,
                        typed_text@,
                        engine,
                        before,
                        after,
                        last,
                        res,
                    ) by {
                        assert(encode.ensures((state_then, event), answer));
                        assert(typed(
                            encode,
                            *keyboard,
                            i as int,
                            text_then,
                            state_then,
                            response_then,
                            after,
                            last,
                            res,
                        ));
                    }
                },
                Err(e) => {
                    assert(typed(
                        encode,
                        *keyboard,
                        i as int,
                        text_then,
                        state_then,
                        response_then,
                        response_then,
                        state,
                        Err(e),
                    ));
                    return (state, Err(e));
                },
            }
        } else {
            assert forall|after: Seq<u8>, last: S, res: Result<()>| #[trigger]
                typed(
                    encode,
                    *keyboard,
                    i + 1,
                    text@,
                    state,
                    response@,
                    after,
                    last,
                    res,
                ) implies typed(
                encode,
                *keyboard,
                0,
                typed_text@,
                engine,
                before,
                after,
                last,
                res,
            ) by {
                assert(typed(
                    encode,
                    *keyboard,
                    i as int,
                    text@,
                    state,
                    response@,
                    after,
                    last,
                    res,
                ));
            }
        }
        i += 1;
    }
    let ghost response_then = response@;
    if !text.as_str().is_empty() {
        response.extend_from_slice(text.as_str().as_bytes());
    } else {
        assert(text@ =~= Seq::<char>::empty());
    }
    assert(response@ =~= response_then + vstd::utf8::encode_utf8(text@));
    assert(typed(
        encode,
        *keyboard,
        KEY_COUNT as int,
        text@,
        state,
        response_then,
        response@,
        state,
        Ok(()),
    ));
    (state, Ok(()))
}

/// Typed text is sent at most once: when an event carries it, none is left for a later event or for
/// the end, and without text left no event carries any.
pub proof fn text_is_sent_once(
    keyboard: Keyboard,
    bound: BoundKey,
    action: KeyAction,
    text: Seq<char>,
    bytes: Seq<u8>,
)
    ensures
        keyboard.event_of(bound, action, text).text is Some ==> text_left(text, action, bytes)
            == Seq::<char>::empty(),
        keyboard.event_of(bound, action, Seq::empty()).text is None,
        text_left(Seq::empty(), action, bytes) == Seq::<char>::empty(),
        vstd::utf8::encode_utf8(Seq::empty()) == Seq::<u8>::empty(),
{
}

/// A frame in which no key changed sends the typed text and nothing else, and asks the engine for
/// nothing.
pub proof fn text_alone_is_sent_as_it_is<S, F: Fn(S, KeyInput) -> (S, Result<Vec<u8>>)>(
    encode: F,
    keyboard: Keyboard,
    i: int,
    text: Seq<char>,
    start: S,
    before: Seq<u8>,
    after: Seq<u8>,
    engine: S,
    res: Result<()>,
)
    requires
        0 <= i <= KEY_COUNT,
        forall|code: u16| #[trigger] keyboard.action_of(code) is None,
        typed(encode, keyboard, i, text, start, before, after, engine, res),
    ensures
        res == Ok::<(), Error>(()),
        engine == start,
        after == before + vstd::utf8::encode_utf8(text),
    decreases KEY_COUNT - i,
{
    if i < KEY_COUNT {
        assert(keyboard.action_of(key_at(i as usize).code) is None);
        text_alone_is_sent_as_it_is(
            encode,
            keyboard,
            i + 1,
            text,
            start,
            before,
            after,
            engine,
            res,
        );
    }
}

/// Keyboard input only ever appends to the bytes that are there.
pub proof fn typing_keeps_the_front<S, F: Fn(S, KeyInput) -> (S, Result<Vec<u8>>)>(
    encode: F,
    keyboard: Keyboard,
    i: int,
    text: Seq<char>,
    start: S,
    before: Seq<u8>,
    after: Seq<u8>,
    engine: S,
    res: Result<()>,
)
    requires
        typed(encode, keyboard, i, text, start, before, after, engine, res),
    ensures
        before.is_prefix_of(after),
    decreases KEY_COUNT - i,
{
    if i < KEY_COUNT {
        match keyboard.action_of(key_at(i as usize).code) {
            None => {
                typing_keeps_the_front(
                    encode,
                    keyboard,
                    i + 1,
                    text,
                    start,
                    before,
                    after,
                    engine,
                    res,
                );
            },
            Some(action) => {
                let (input, out) = choose|input: KeyInput, out: (S, Result<Vec<u8>>)|
                    {
                        &&& #[trigger] encode.ensures((start, input), out)
                        &&& input@ == keyboard.event_of(key_at(i as usize), action, text)
                        &&& match out.1 {
                            Ok(bytes) => typed(
                                encode,
                                keyboard,
                                i + 1,
                                text_left(text, action, before + bytes@),
                                out.0,
                                before + bytes@,
                                after,
                                engine,
                                res,
                            ),
                            Err(e) => after == before && engine == out.0 && res == Err::<
                                (),
                                Error,
                            >(e),
                        }
                    };
                if let Ok(bytes) = out.1 {
                    let next = before + bytes@;
                    typing_keeps_the_front(
                        encode,
                        keyboard,
                        i + 1,
                        text_left(text, action, next),
                        out.0,
                        next,
                        after,
                        engine,
                        res,
                    );
                    assert(before =~= after.take(before.len() as int)) by {
                        assert(next =~= after.take(next.len() as int));
                        assert(before =~= next.take(before.len() as int));
                    }
                }
            },
        }
    }
}

//---------------------------------------
// A whole frame of the keyboard
//---------------------------------------

/// One key event of a frame, and what came of encoding it.
pub ghost struct KeyStep<S> {
    /// The position of the key in the table.
    pub position: int,
    /// The event.
    pub input: KeyInput,
    /// The engine before.
    pub before: S,
    /// The engine afterwards.
    pub after: S,
    /// The bytes, or the error.
    pub result: Result<Vec<u8>>,
}

/// The bytes that the events came to, one after the other.
pub open spec fn bytes_of<S>(steps: Seq<KeyStep<S>>) -> Seq<u8>
    decreases steps.len(),
{
    if steps.len() == 0 {
        seq![]
    } else {
        match steps[0].result {
            Ok(bytes) => bytes@ + bytes_of(steps.skip(1)),
            Err(_) => bytes_of(steps.skip(1)),
        }
    }
}

/// By the time of event `k` the typed text is still to be sent: no event before it carried the text,
/// and there were no bytes to send after any of them.
pub open spec fn text_waits<S>(before: Seq<u8>, steps: Seq<KeyStep<S>>, k: int) -> bool {
    forall|l: int|
        0 <= l < k ==> {
            &&& (#[trigger] steps[l]).input.text is None
            &&& (before + bytes_of(steps.take(l + 1))).len() == 0
        }
}

/// The key at position `p` of the table.
#[verifier::opaque]
pub open spec fn table_key(p: int) -> BoundKey {
    key_at(p as usize)
}

/// The key with the given code was released or pressed in the frame.
pub open spec fn has_changed(keyboard: Keyboard, code: u16) -> bool {
    keyboard.released@.contains(code) || keyboard.pressed@.contains(code)
}

/// The bits say of each modifier whether one of its two keys is down, and nothing else.
pub open spec fn bits_tell_the_keys(bits: u16, down: Seq<u16>) -> bool {
    &&& bits & 1 == 1 <==> (down.contains(0xffe1) || down.contains(0xffe2))
    &&& bits & 2 == 2 <==> (down.contains(0xffe3) || down.contains(0xffe4))
    &&& bits & 4 == 4 <==> (down.contains(0xffe9) || down.contains(0xffea))
    &&& bits & 8 == 8 <==> (down.contains(0xffeb) || down.contains(0xffec))
    &&& bits & 0xfff0 == 0
}

/// The event tells what happened: which key it was, that a release counts before a press, which
/// modifiers are held, and that shift is spent on a key that produces a character.
pub open spec fn tells_what_happened<S>(keyboard: Keyboard, step: KeyStep<S>) -> bool {
    let bound = table_key(step.position);
    let shifted = keyboard.down@.contains(0xffe1) || keyboard.down@.contains(0xffe2);
    &&& 0 <= step.position < KEY_COUNT
    &&& step.input.key == bound.key
    &&& step.input.unshifted == bound.unshifted
    &&& has_changed(keyboard, bound.code)
    &&& step.input.action is Release <==> keyboard.released@.contains(bound.code)
    &&& step.input.action is Press <==> !keyboard.released@.contains(bound.code)
    &&& bits_tell_the_keys(step.input.mods.bits, keyboard.down@)
    &&& step.input.consumed.bits == if shifted && bound.unshifted != '\0' {
        1u16
    } else {
        0
    }
}

/// Encoding the events one after the other takes the engine from `start` to `engine`, and only the
/// last of them can fail.
pub open spec fn is_chain<S, F: Fn(S, KeyInput) -> (S, Result<Vec<u8>>)>(
    encode: F,
    start: S,
    steps: Seq<KeyStep<S>>,
    engine: S,
    res: Result<()>,
) -> bool {
    &&& forall|k: int|
        0 <= k < steps.len() ==> {
            let step = #[trigger] steps[k];
            encode.ensures((step.before, step.input), (step.after, step.result))
        }
    &&& forall|k: int, l: int|
        0 <= k < steps.len() && l == k + 1 && l < steps.len() ==> {
            &&& (#[trigger] steps[k]).result is Ok
            &&& (#[trigger] steps[l]).before == steps[k].after
        }
    &&& steps.len() == 0 ==> engine == start && res is Ok
    &&& steps.len() > 0 ==> {
        &&& steps[0].before == start
        &&& engine == steps.last().after
        &&& match res {
            Ok(_) => steps.last().result is Ok,
            Err(e) => steps.last().result == Err::<Vec<u8>, Error>(e),
        }
    }
}

/// The events are those of the keys from position `i` of the table on that changed, in the order of
/// the table; up to the last event none of them is left out, and none at all if nothing failed.
pub open spec fn are_the_changed_keys<S>(
    keyboard: Keyboard,
    i: int,
    steps: Seq<KeyStep<S>>,
    complete: bool,
) -> bool {
    &&& forall|k: int|
        0 <= k < steps.len() ==> tells_what_happened(keyboard, #[trigger] steps[k])
            && steps[k].position >= i
    &&& forall|k: int, l: int|
        0 <= k < l < steps.len() ==> (#[trigger] steps[k]).position < (#[trigger] steps[l]).position
    &&& forall|p: int|
        i <= p < KEY_COUNT && has_changed(keyboard, (#[trigger] table_key(p)).code) && (complete
            || steps.len() > 0 && p <= steps.last().position) ==> exists|k: int|
            0 <= k < steps.len() && (#[trigger] steps[k]).position == p
}

/// The text goes with the first press while it is still to be sent, and with no other event.
pub open spec fn text_goes_once<S>(
    text: Seq<char>,
    before: Seq<u8>,
    steps: Seq<KeyStep<S>>,
) -> bool {
    forall|k: int|
        0 <= k < steps.len() ==> (#[trigger] steps[k]).input@.text == if text.len() > 0
            && steps[k].input.action is Press && text_waits(before, steps, k) {
            Some(text)
        } else {
            None
        }
}

/// The text that is sent at the end, as it is: all of it, if nothing failed and it is still to be
/// sent after every event.
pub open spec fn text_sent<S>(
    text: Seq<char>,
    before: Seq<u8>,
    steps: Seq<KeyStep<S>>,
    res: Result<()>,
) -> Seq<u8> {
    if res is Ok && text_waits(before, steps, steps.len() as int) {
        vstd::utf8::encode_utf8(text)
    } else {
        seq![]
    }
}

proof fn lemma_first_step<S>(before: Seq<u8>, first: KeyStep<S>, rest: Seq<KeyStep<S>>, k: int)
    requires
        1 <= k <= rest.len() + 1,
        first.result is Ok,
    ensures
        ({
            let steps = seq![first] + rest;
            let bytes = first.result->Ok_0@;
            &&& bytes_of(steps) == bytes + bytes_of(rest)
            &&& text_waits(before, steps, k) <==> {
                &&& first.input.text is None
                &&& (before + bytes).len() == 0
                &&& text_waits(before + bytes, rest, k - 1)
            }
        }),
{
    let steps = seq![first] + rest;
    let bytes = first.result->Ok_0@;
    assert(steps.skip(1) =~= rest);
    assert(steps[0] == first);
    assert(bytes_of(steps) == bytes + bytes_of(rest));
    assert forall|l: int| 0 <= l <= rest.len() implies #[trigger] bytes_of(steps.take(l + 1))
        == bytes + bytes_of(rest.take(l)) by {
        assert(steps.take(l + 1).skip(1) =~= rest.take(l));
        assert(steps.take(l + 1)[0] == first);
    }
    assert(bytes_of(rest.take(0)) =~= Seq::<u8>::empty());
    assert(bytes_of(steps.take(0int + 1)) == bytes + bytes_of(rest.take(0)));
    assert forall|l: int| 0 <= l < rest.len() implies before + bytes_of(
        steps.take(l + 1 + 1),
    ) == before + bytes + bytes_of(#[trigger] rest.take(l + 1)) by {
        assert(bytes_of(steps.take((l + 1) + 1)) == bytes + bytes_of(rest.take(l + 1)));
        assert(before + (bytes + bytes_of(rest.take(l + 1))) =~= before + bytes + bytes_of(
            rest.take(l + 1),
        ));
    }
    if text_waits(before, steps, k) {
        assert(steps[0].input.text is None);
        assert forall|l: int| 0 <= l < k - 1 implies {
            &&& (#[trigger] rest[l]).input.text is None
            &&& (before + bytes + bytes_of(rest.take(l + 1))).len() == 0
        } by {
            assert(steps[l + 1] == rest[l]);
            assert(rest.take(l + 1) == rest.take(l + 1));
        }
    }
    if first.input.text is None && (before + bytes).len() == 0 && text_waits(
        before + bytes,
        rest,
        k - 1,
    ) {
        assert forall|l: int| 0 <= l < k implies {
            &&& (#[trigger] steps[l]).input.text is None
            &&& (before + bytes_of(steps.take(l + 1))).len() == 0
        } by {
            if l > 0 {
                assert(steps[l] == rest[l - 1]);
                assert(rest.take((l - 1) + 1) == rest.take(l));
                assert((before + bytes + bytes_of(rest.take((l - 1) + 1))).len() == 0);
            }
        }
    }
}

/// An event made of a key tells what happened to it.
#[verifier::spinoff_prover]
proof fn lemma_event_tells<S>(keyboard: Keyboard, action: KeyAction, text: Seq<char>, step: KeyStep<S>)
    requires
        0 <= step.position < KEY_COUNT,
        keyboard.action_of(table_key(step.position).code) == Some(action),
        step.input@ == keyboard.event_of(table_key(step.position), action, text),
    ensures
        tells_what_happened(keyboard, step),
{
    mods_tell_the_keys(keyboard.down@);
    let input = step.input;
    assert(input@.mods == input.mods && input@.consumed == input.consumed);
    assert(input@.action == input.action && input@.key == input.key);
}

proof fn lemma_more_keys<S>(
    keyboard: Keyboard,
    i: int,
    first: KeyStep<S>,
    rest: Seq<KeyStep<S>>,
    complete: bool,
)
    requires
        0 <= i < KEY_COUNT,
        first.position == i,
        tells_what_happened(keyboard, first),
        are_the_changed_keys(keyboard, i + 1, rest, complete),
    ensures
        are_the_changed_keys(keyboard, i, seq![first] + rest, complete),
{
    let steps = seq![first] + rest;
    assert(steps[0] == first);
    assert forall|k: int| 0 <= k < steps.len() implies tells_what_happened(
        keyboard,
        #[trigger] steps[k],
    ) && steps[k].position >= i by {
        if k > 0 {
            assert(steps[k] == rest[k - 1]);
        }
    }
    assert forall|k: int, l: int| 0 <= k < l < steps.len() implies (#[trigger] steps[k]).position < (
    #[trigger] steps[l]).position by {
        assert(steps[l] == rest[l - 1]);
        if k > 0 {
            assert(steps[k] == rest[k - 1]);
        }
    }
    assert forall|p: int|
        i <= p < KEY_COUNT && has_changed(keyboard, (#[trigger] table_key(p)).code) && (complete
            || steps.len() > 0 && p <= steps.last().position) implies exists|k: int|
        0 <= k < steps.len() && (#[trigger] steps[k]).position == p by {
        if p == i {
            assert(steps[0].position == p);
        } else {
            if rest.len() > 0 {
                assert(steps.last() == rest.last());
            }
            let k = choose|k: int| 0 <= k < rest.len() && (#[trigger] rest[k]).position == p;
            assert(steps[k + 1] == rest[k]);
        }
    }
}

proof fn lemma_longer_chain<S, F: Fn(S, KeyInput) -> (S, Result<Vec<u8>>)>(
    encode: F,
    first: KeyStep<S>,
    rest: Seq<KeyStep<S>>,
    engine: S,
    res: Result<()>,
)
    requires
        encode.ensures((first.before, first.input), (first.after, first.result)),
        first.result is Ok,
        is_chain(encode, first.after, rest, engine, res),
    ensures
        is_chain(encode, first.before, seq![first] + rest, engine, res),
{
    let steps = seq![first] + rest;
    assert(steps[0] == first);
    assert forall|k: int| 0 <= k < steps.len() implies {
        let step = #[trigger] steps[k];
        encode.ensures((step.before, step.input), (step.after, step.result))
    } by {
        if k > 0 {
            assert(steps[k] == rest[k - 1]);
        }
    }
    assert forall|k: int, l: int| 0 <= k < steps.len() && l == k + 1 && l < steps.len() implies {
        &&& (#[trigger] steps[k]).result is Ok
        &&& (#[trigger] steps[l]).before == steps[k].after
    } by {
        assert(steps[l] == rest[l - 1]);
        if k > 0 {
            assert(steps[k] == rest[k - 1]);
        }
    }
    if rest.len() > 0 {
        assert(steps.last() == rest.last());
    }
}

#[verifier::spinoff_prover]
proof fn lemma_text_goes_on<S>(
    text: Seq<char>,
    before: Seq<u8>,
    first: KeyStep<S>,
    bytes: Seq<u8>,
    rest: Seq<KeyStep<S>>,
)
    requires
        first.result matches Ok(out) && out@ == bytes,
        first.input@.text == if text.len() > 0 && first.input.action is Press {
            Some(text)
        } else {
            None
        },
        text_goes_once(text_left(text, first.input.action, before + bytes), before + bytes, rest),
    ensures
        text_goes_once(text, before, seq![first] + rest),
{
    let steps = seq![first] + rest;
    assert(steps[0] == first);
    assert forall|k: int| 0 <= k < steps.len() implies (#[trigger] steps[k]).input@.text == if text.len()
        > 0 && steps[k].input.action is Press && text_waits(before, steps, k) {
        Some(text)
    } else {
        None
    } by {
        if k > 0 {
            lemma_first_step(before, first, rest, k);
            assert(steps[k] == rest[k - 1]);
            assert(first.input.text is None <==> first.input@.text is None);
        } else {
            assert(text_waits(before, steps, 0));
        }
    }
}

proof fn lemma_text_sent<S>(
    text: Seq<char>,
    before: Seq<u8>,
    first: KeyStep<S>,
    bytes: Seq<u8>,
    rest: Seq<KeyStep<S>>,
    res: Result<()>,
)
    requires
        first.result matches Ok(out) && out@ == bytes,
        first.input@.text == if text.len() > 0 && first.input.action is Press {
            Some(text)
        } else {
            None
        },
    ensures
        bytes_of(seq![first] + rest) == bytes + bytes_of(rest),
        text_sent(text, before, seq![first] + rest, res) == text_sent(
            text_left(text, first.input.action, before + bytes),
            before + bytes,
            rest,
            res,
        ),
{
    let steps = seq![first] + rest;
    lemma_first_step(before, first, rest, steps.len() as int);
    assert(first.input.text is None <==> first.input@.text is None);
    assert(vstd::utf8::encode_utf8(Seq::<char>::empty()) =~= Seq::<u8>::empty());
}

/// [`typed`], to be unrolled one key at a time.
#[verifier::opaque]
spec fn typed_from<S, F: Fn(S, KeyInput) -> (S, Result<Vec<u8>>)>(
    encode: F,
    keyboard: Keyboard,
    i: int,
    text: Seq<char>,
    start: S,
    before: Seq<u8>,
    after: Seq<u8>,
    engine: S,
    res: Result<()>,
) -> bool {
    typed(encode, keyboard, i, text, start, before, after, engine, res)
}

/// The event of the key at position `i` of the table, if it changed.
#[verifier::spinoff_prover]
proof fn lemma_next_key<S, F: Fn(S, KeyInput) -> (S, Result<Vec<u8>>)>(
    encode: F,
    keyboard: Keyboard,
    i: int,
    text: Seq<char>,
    start: S,
    before: Seq<u8>,
    after: Seq<u8>,
    engine: S,
    res: Result<()>,
) -> (step: Option<KeyStep<S>>)
    requires
        0 <= i < KEY_COUNT,
        typed_from(encode, keyboard, i, text, start, before, after, engine, res),
    ensures
        match step {
            None => {
                &&& !has_changed(keyboard, table_key(i).code)
                &&& typed_from(encode, keyboard, i + 1, text, start, before, after, engine, res)
            },
            Some(step) => {
                &&& step.position == i
                &&& step.before == start
                &&& encode.ensures((start, step.input), (step.after, step.result))
                &&& tells_what_happened(keyboard, step)
                &&& step.input@.text == if text.len() > 0 && step.input.action is Press {
                    Some(text)
                } else {
                    None
                }
                &&& match step.result {
                    Ok(bytes) => typed_from(
                        encode,
                        keyboard,
                        i + 1,
                        text_left(text, step.input.action, before + bytes@),
                        step.after,
                        before + bytes@,
                        after,
                        engine,
                        res,
                    ),
                    Err(e) => after == before && engine == step.after && res == Err::<(), Error>(e),
                }
            },
        },
{
    reveal(typed_from);
    reveal(table_key);
    let bound = key_at(i as usize);
    match keyboard.action_of(bound.code) {
        None => None,
        Some(action) => {
            let (input, out) = choose|input: KeyInput, out: (S, Result<Vec<u8>>)|
                {
                    &&& #[trigger] encode.ensures((start, input), out)
                    &&& input@ == keyboard.event_of(key_at(i as usize), action, text)
                    &&& match out.1 {
                        Ok(bytes) => typed(
                            encode,
                            keyboard,
                            i + 1,
                            text_left(text, action, before + bytes@),
                            out.0,
                            before + bytes@,
                            after,
                            engine,
                            res,
                        ),
                        Err(e) => after == before && engine == out.0 && res == Err::<(), Error>(e),
                    }
                };
            let step = KeyStep { position: i, input, before: start, after: out.0, result: out.1 };
            assert(input@.action == input.action);
            lemma_event_tells(keyboard, action, text, step);
            Some(step)
        },
    }
}

/// The events from position `i` of the table on.
#[verifier::spinoff_prover]
proof fn lemma_key_steps<S, F: Fn(S, KeyInput) -> (S, Result<Vec<u8>>)>(
    encode: F,
    keyboard: Keyboard,
    i: int,
    text: Seq<char>,
    start: S,
    before: Seq<u8>,
    after: Seq<u8>,
    engine: S,
    res: Result<()>,
) -> (steps: Seq<KeyStep<S>>)
    requires
        0 <= i <= KEY_COUNT,
        typed_from(encode, keyboard, i, text, start, before, after, engine, res),
    ensures
        is_chain(encode, start, steps, engine, res),
        are_the_changed_keys(keyboard, i, steps, res is Ok),
        text_goes_once(text, before, steps),
        after == before + bytes_of(steps) + text_sent(text, before, steps, res),
    decreases KEY_COUNT - i,
{
    let none = Seq::<KeyStep<S>>::empty();
    if i >= KEY_COUNT {
        reveal(typed_from);
        assert(before + bytes_of(none) =~= before);
        assert(text_waits(before, none, 0));
        none
    } else {
        match lemma_next_key(encode, keyboard, i, text, start, before, after, engine, res) {
            None => {
                lemma_key_steps(
                    encode,
                    keyboard,
                    i + 1,
                    text,
                    start,
                    before,
                    after,
                    engine,
                    res,
                )
            },
            Some(first) => match first.result {
                Ok(bytes) => {
                    let rest = lemma_key_steps(
                        encode,
                        keyboard,
                        i + 1,
                        text_left(text, first.input.action, before + bytes@),
                        first.after,
                        before + bytes@,
                        after,
                        engine,
                        res,
                    );
                    let steps = seq![first] + rest;
                    lemma_longer_chain(encode, first, rest, engine, res);
                    lemma_more_keys(keyboard, i, first, rest, res is Ok);
                    lemma_text_goes_on(text, before, first, bytes@, rest);
                    lemma_text_sent(text, before, first, bytes@, rest, res);
                    assert(before + bytes@ + bytes_of(rest) =~= before + bytes_of(steps));
                    steps
                },
                Err(e) => {
                    let steps = seq![first];
                    assert(steps.skip(1) =~= none);
                    assert(steps[0] == first);
                    assert(bytes_of(none) =~= Seq::<u8>::empty());
                    assert(before + bytes_of(steps) + Seq::<u8>::empty() =~= before);
                    assert(text_waits(before, steps, 0));
                    assert(are_the_changed_keys(keyboard, i, steps, res is Ok)) by {
                        assert(steps[0].position == i);
                    }
                    steps
                },
            },
        }
    }
}

/// Every key of the table that changed in a frame makes exactly one event, in the order of the
/// table, and no other key makes any. Each event tells what happened and which modifiers are held,
/// and is encoded with the engine as the one before it left it. The typed text goes with the first
/// press while nothing was sent, or else to the end if nothing was sent at all. What is sent is what
/// the events came to, and nothing else. Only an error leaves out the keys after it.
pub proof fn every_changed_key_makes_its_event<S, F: Fn(S, KeyInput) -> (S, Result<Vec<u8>>)>(
    encode: F,
    keyboard: Keyboard,
    text: Seq<char>,
    start: S,
    before: Seq<u8>,
    after: Seq<u8>,
    engine: S,
    res: Result<()>,
) -> (steps: Seq<KeyStep<S>>)
    requires
        typed(encode, keyboard, 0, text, start, before, after, engine, res),
    ensures
        is_chain(encode, start, steps, engine, res),
        are_the_changed_keys(keyboard, 0, steps, res is Ok),
        text_goes_once(text, before, steps),
        after == before + bytes_of(steps) + text_sent(text, before, steps, res),
{
    assert(typed_from(encode, keyboard, 0, text, start, before, after, engine, res)) by {
        reveal(typed_from);
    }
    lemma_key_steps(encode, keyboard, 0, text, start, before, after, engine, res)
}

/// The keys that produce a character have the code of that character, in upper case; the letters,
/// the digits and the function keys follow each other, in the codes, in the numbers of the physical
/// keys and in the characters alike; and the other keys produce none.
pub proof fn the_table_is_in_order(i: usize)
    requires
        i < KEY_COUNT,
    ensures
        ({
            let bound = key_at(i);
            let c = bound.unshifted as u32;
            &&& i < 26 ==> {
                &&& bound.code == 0x41 + i
                &&& bound.key.spec_code() == Key::A.spec_code() + i
                &&& c == 0x61 + i
            }
            &&& 26 <= i < 36 ==> {
                &&& bound.code == 0x30 + (i - 26)
                &&& bound.key.spec_code() == Key::Digit0.spec_code() + (i - 26)
                &&& c == 0x30 + (i - 26)
            }
            &&& 62 <= i ==> {
                &&& bound.code == 0xffbe + (i - 62)
                &&& bound.key.spec_code() == Key::F1.spec_code() + (i - 62)
                &&& c == 0
            }
            &&& c != 0 ==> bound.code == if 0x61 <= c <= 0x7a {
                c - 0x20
            } else {
                c as int
            }
            &&& c == 0 <==> bound.code >= 0xff00
        }),
{
}

//---------------------------------------
// Mouse
//---------------------------------------

/// What the window system reports of a mouse button for one frame.
#[derive(Clone, Copy, Debug, PartialEq, Eq, Structural)]
pub struct ButtonState {
    /// The button is down.
    pub down: bool,
    /// The button was pressed.
    pub pressed: bool,
    /// The button was released.
    pub released: bool,
}

/// What the window system reports of the mouse buttons for one frame.
#[derive(Clone, Copy, Debug, PartialEq, Eq, Structural)]
pub struct Buttons {
    /// The left button.
    pub left: ButtonState,
    /// The right button.
    pub right: ButtonState,
    /// The middle button.
    pub middle: ButtonState,
}

/// What the mouse wheel did in a frame.
#[derive(Clone, Copy, Debug, PartialEq, Eq, Structural)]
pub struct Wheel {
    /// It turned up.
    pub up: bool,
    /// By how many lines to scroll the viewport; negative is up, into history.
    pub lines: isize,
}

/// A mouse event to encode, by what changes from the event before it, in the order of the change.
#[derive(Clone, Copy, Debug, PartialEq, Eq, Structural)]
pub enum MouseInput {
    /// An event of a button or of the motion: the action, and then the button.
    Event {
        /// What happened.
        action: Action,
        /// The button that it happened to, or that is held.
        button: Option<Button>,
    },
    /// The wheel turned: its button, and then that it is pressed.
    WheelPress(Button),
    /// The wheel's button is released. It is the one of the event before.
    WheelRelease,
}

impl Buttons {
    /// Whether any button is held.
    pub fn any_down(&self) -> (res: bool)
        ensures
            res == (self.left.down || self.right.down || self.middle.down),
    {
        self.left.down || self.right.down || self.middle.down
    }

    /// The first button that is held: left before right before middle.
    pub open spec fn held(self) -> Option<Button> {
        if self.left.down {
            Some(Button::Left)
        } else if self.right.down {
            Some(Button::Right)
        } else if self.middle.down {
            Some(Button::Middle)
        } else {
            None
        }
    }

    /// The first button that is held: left before right before middle.
    pub fn first_held(&self) -> (res: Option<Button>)
        ensures
            res == self.held(),
    {
        if self.left.down {
            Some(Button::Left)
        } else if self.right.down {
            Some(Button::Right)
        } else if self.middle.down {
            Some(Button::Middle)
        } else {
            None
        }
    }
}

/// The events of one button: that it was released counts before that it was pressed.
pub open spec fn button_events(button: Button, state: ButtonState) -> Seq<MouseInput> {
    if state.released {
        seq![MouseInput::Event { action: Action::Release, button: Some(button) }]
    } else if state.pressed {
        seq![MouseInput::Event { action: Action::Press, button: Some(button) }]
    } else {
        seq![]
    }
}

/// The events of the buttons and of the motion of the mouse, in order: left, right, middle, and
/// then the motion with whatever button is held.
pub open spec fn mouse_events(buttons: Buttons, moved: bool) -> Seq<MouseInput> {
    button_events(Button::Left, buttons.left) + button_events(Button::Right, buttons.right)
        + button_events(Button::Middle, buttons.middle) + if moved {
        seq![MouseInput::Event { action: Action::Motion, button: buttons.held() }]
    } else {
        seq![]
    }
}

fn push_button_events(events: &mut Vec<MouseInput>, button: Button, state: ButtonState)
    ensures
        final(events)@ == old(events)@ + button_events(button, state),
{
    if state.released {
        events.push(MouseInput::Event { action: Action::Release, button: Some(button) });
    } else if state.pressed {
        events.push(MouseInput::Event { action: Action::Press, button: Some(button) });
    }
    assert(events@ =~= old(events)@ + button_events(button, state));
}

/// The events of the buttons and of the motion of the mouse, in order.
pub fn events_of(buttons: &Buttons, moved: bool) -> (res: Vec<MouseInput>)
    ensures
        res@ == mouse_events(*buttons, moved),
{
    let mut events: Vec<MouseInput> = Vec::new();
    push_button_events(&mut events, Button::Left, buttons.left);
    push_button_events(&mut events, Button::Right, buttons.right);
    push_button_events(&mut events, Button::Middle, buttons.middle);
    if moved {
        events.push(MouseInput::Event { action: Action::Motion, button: buttons.first_held() });
    }
    assert(events@ =~= mouse_events(*buttons, moved));
    events
}

/// What encoding the events from position `i` on does to the bytes `before` and to the engine: each
/// event is encoded with the engine as the one before it left it, its bytes are appended, and the
/// first error ends it.
pub open spec fn sent<S, F: Fn(S, MouseInput) -> (S, Result<Vec<u8>>)>(
    encode: F,
    events: Seq<MouseInput>,
    i: int,
    start: S,
    before: Seq<u8>,
    after: Seq<u8>,
    engine: S,
    res: Result<()>,
) -> bool
    decreases events.len() - i,
{
    if i >= events.len() {
        after == before && engine == start && res == Ok::<(), Error>(())
    } else {
        exists|out: (S, Result<Vec<u8>>)| #[trigger]
            encode.ensures((start, events[i]), out) && match out.1 {
                Ok(bytes) => sent(encode, events, i + 1, out.0, before + bytes@, after, engine, res),
                Err(e) => after == before && engine == out.0 && res == Err::<(), Error>(e),
            }
    }
}

/// Encode the events in order and append the bytes to `response`.
fn send<S, F: Fn(S, MouseInput) -> (S, Result<Vec<u8>>)>(
    events: &Vec<MouseInput>,
    response: &mut Vec<u8>,
    engine: S,
    encode: &F,
) -> (res: (S, Result<()>))
    requires
        forall|s: S, input: MouseInput| #[trigger] encode.requires((s, input)),
    ensures
        sent(*encode, events@, 0, engine, old(response)@, final(response)@, res.0, res.1),
{
    let ghost before = response@;
    let mut state = engine;
    let mut i: usize = 0;
    while i < events.len()
        invariant
            i <= events@.len(),
            before == old(response)@,
            forall|s: S, input: MouseInput| #[trigger] encode.requires((s, input)),
            forall|after: Seq<u8>, last: S, res: Result<()>| #[trigger]
                sent(*encode, events@, i as int, state, response@, after, last, res) ==> sent(
                    *encode,
                    events@,
                    0,
                    engine,
                    before,
                    after,
                    last,
                    res,
                ),
        decreases events@.len() - i,
    {
        let ghost response_then = response@;
        let ghost state_then = state;
        let out = encode(state, events[i]);
        let ghost answer = out;
        assert(encode.ensures((state_then, events@[i as int]), answer));
        let (next, encoded) = out;
        state = next;
        match encoded {
            Ok(bytes) => {
                response.extend_from_slice(bytes.as_slice());
                assert(response@ =~= response_then + bytes@);
                assert forall|after: Seq<u8>, last: S, res: Result<()>| #[trigger]
                    sent(*encode, events@, i + 1, state, response@, after, last, res) implies sent(
                    *encode,
                    events@,
                    0,
                    engine,
                    before,
                    after,
                    last,
                    res,
                ) by {
                    assert(encode.ensures((state_then, events@[i as int]), answer));
                    assert(sent(
                        *encode,
                        events@,
                        i as int,
                        state_then,
                        response_then,
                        after,
                        last,
                        res,
                    ));
                }
            },
            Err(e) => {
                assert(sent(
                    *encode,
                    events@,
                    i as int,
                    state_then,
                    response_then,
                    response_then,
                    state,
                    Err(e),
                ));
                return (state, Err(e));
            },
        }
        i += 1;
    }
    assert(sent(*encode, events@, i as int, state, response@, response@, state, Ok(())));
    (state, Ok(()))
}

/// Encoding events only ever appends to the bytes that are there.
pub proof fn sending_keeps_the_front<S, F: Fn(S, MouseInput) -> (S, Result<Vec<u8>>)>(
    encode: F,
    events: Seq<MouseInput>,
    i: int,
    start: S,
    before: Seq<u8>,
    after: Seq<u8>,
    engine: S,
    res: Result<()>,
)
    requires
        sent(encode, events, i, start, before, after, engine, res),
    ensures
        before.is_prefix_of(after),
    decreases events.len() - i,
{
    if i < events.len() {
        let out = choose|out: (S, Result<Vec<u8>>)| #[trigger]
            encode.ensures((start, events[i]), out) && match out.1 {
                Ok(bytes) => sent(encode, events, i + 1, out.0, before + bytes@, after, engine, res),
                Err(e) => after == before && engine == out.0 && res == Err::<(), Error>(e),
            };
        if let Ok(bytes) = out.1 {
            let next = before + bytes@;
            sending_keeps_the_front(encode, events, i + 1, out.0, next, after, engine, res);
            assert(before =~= after.take(before.len() as int)) by {
                assert(next =~= after.take(next.len() as int));
                assert(before =~= next.take(before.len() as int));
            }
        }
    }
}

/// One mouse event of a frame, and what came of encoding it.
pub ghost struct MouseStep<S> {
    /// The engine before.
    pub before: S,
    /// The engine afterwards.
    pub after: S,
    /// The bytes, or the error.
    pub result: Result<Vec<u8>>,
}

/// The bytes that the events came to, one after the other.
pub open spec fn mouse_bytes<S>(steps: Seq<MouseStep<S>>) -> Seq<u8>
    decreases steps.len(),
{
    if steps.len() == 0 {
        seq![]
    } else {
        match steps[0].result {
            Ok(bytes) => bytes@ + mouse_bytes(steps.skip(1)),
            Err(_) => mouse_bytes(steps.skip(1)),
        }
    }
}

/// Every event is encoded, one after the other and each with the engine as the one before it left
/// it; what is sent is what they came to, and nothing else. Only an error leaves out the events
/// after it, and it is the result.
pub proof fn every_event_is_sent<S, F: Fn(S, MouseInput) -> (S, Result<Vec<u8>>)>(
    encode: F,
    events: Seq<MouseInput>,
    i: int,
    start: S,
    before: Seq<u8>,
    after: Seq<u8>,
    engine: S,
    res: Result<()>,
) -> (steps: Seq<MouseStep<S>>)
    requires
        0 <= i <= events.len(),
        sent(encode, events, i, start, before, after, engine, res),
    ensures
        steps.len() <= events.len() - i,
        forall|k: int|
            0 <= k < steps.len() ==> {
                let step = #[trigger] steps[k];
                encode.ensures((step.before, events[i + k]), (step.after, step.result))
            },
        forall|k: int, l: int|
            0 <= k < steps.len() && l == k + 1 && l < steps.len() ==> {
                &&& (#[trigger] steps[k]).result is Ok
                &&& (#[trigger] steps[l]).before == steps[k].after
            },
        steps.len() == 0 ==> engine == start && res is Ok,
        steps.len() > 0 ==> steps[0].before == start && engine == steps.last().after,
        match res {
            Ok(_) => steps.len() == events.len() - i && (steps.len() > 0 ==> steps.last().result
                is Ok),
            Err(e) => steps.len() > 0 && steps.last().result == Err::<Vec<u8>, Error>(e),
        },
        after == before + mouse_bytes(steps),
    decreases events.len() - i,
{
    let none = Seq::<MouseStep<S>>::empty();
    assert(mouse_bytes(none) =~= Seq::<u8>::empty());
    if i >= events.len() {
        assert(before + mouse_bytes(none) =~= before);
        none
    } else {
        let out = choose|out: (S, Result<Vec<u8>>)| #[trigger]
            encode.ensures((start, events[i]), out) && match out.1 {
                Ok(bytes) => sent(
                    encode,
                    events,
                    i + 1,
                    out.0,
                    before + bytes@,
                    after,
                    engine,
                    res,
                ),
                Err(e) => after == before && engine == out.0 && res == Err::<(), Error>(e),
            };
        let first = MouseStep { before: start, after: out.0, result: out.1 };
        match out.1 {
            Ok(bytes) => {
                let rest = every_event_is_sent(
                    encode,
                    events,
                    i + 1,
                    out.0,
                    before + bytes@,
                    after,
                    engine,
                    res,
                );
                let steps = seq![first] + rest;
                assert(steps.skip(1) =~= rest);
                assert(steps[0] == first);
                assert forall|k: int| 0 <= k < steps.len() implies {
                    let step = #[trigger] steps[k];
                    encode.ensures((step.before, events[i + k]), (step.after, step.result))
                } by {
                    if k > 0 {
                        assert(steps[k] == rest[k - 1]);
                        assert(events[i + k] == events[(i + 1) + (k - 1)]);
                    }
                }
                assert forall|k: int, l: int|
                    0 <= k < steps.len() && l == k + 1 && l < steps.len() implies {
                    &&& (#[trigger] steps[k]).result is Ok
                    &&& (#[trigger] steps[l]).before == steps[k].after
                } by {
                    assert(steps[l] == rest[l - 1]);
                    if k > 0 {
                        assert(steps[k] == rest[k - 1]);
                    }
                }
                if rest.len() > 0 {
                    assert(steps.last() == rest.last());
                }
                assert(before + bytes@ + mouse_bytes(rest) =~= before + mouse_bytes(steps));
                steps
            },
            Err(e) => {
                let steps = seq![first];
                assert(steps.skip(1) =~= none);
                assert(steps[0] == first);
                assert(before + mouse_bytes(steps) =~= before);
                steps
            },
        }
    }
}

/// The modes that make a program receive mouse events.
pub open spec fn tracking_mode(i: int) -> Mode {
    if i == 0 {
        Mode(Mode::X10_MOUSE)
    } else if i == 1 {
        Mode(Mode::NORMAL_MOUSE)
    } else if i == 2 {
        Mode(Mode::BUTTON_MOUSE)
    } else {
        Mode(Mode::ANY_MOUSE)
    }
}

/// `res` says whether any of the tracking modes from position `i` on is set. They are asked for in
/// order until one is; one that cannot be asked for counts as not set.
pub open spec fn tracks<S, M: Fn(&S, Mode) -> Result<bool>>(
    mode: M,
    engine: &S,
    i: int,
    res: bool,
) -> bool
    decreases 4 - i,
{
    if i >= 4 {
        !res
    } else {
        exists|answer: Result<bool>| #[trigger]
            mode.ensures((engine, tracking_mode(i)), answer) && if answer == Ok::<bool, Error>(
                true,
            ) {
                res
            } else {
                tracks(mode, engine, i + 1, res)
            }
    }
}

/// Whether any mouse tracking mode is set.
fn is_tracking<S, M: Fn(&S, Mode) -> Result<bool>>(engine: &S, mode: &M) -> (res: bool)
    requires
        forall|m: Mode| #[trigger] mode.requires((engine, m)),
    ensures
        tracks(*mode, engine, 0, res),
{
    let mut i: usize = 0;
    while i < 4
        invariant
            i <= 4,
            forall|m: Mode| #[trigger] mode.requires((engine, m)),
            forall|res: bool| #[trigger]
                tracks(*mode, engine, i as int, res) ==> tracks(*mode, engine, 0, res),
        decreases 4 - i,
    {
        let m = if i == 0 {
            Mode(Mode::X10_MOUSE)
        } else if i == 1 {
            Mode(Mode::NORMAL_MOUSE)
        } else if i == 2 {
            Mode(Mode::BUTTON_MOUSE)
        } else {
            Mode(Mode::ANY_MOUSE)
        };
        let answer = mode(engine, m);
        assert(mode.ensures((engine, tracking_mode(i as int)), answer));
        if let Ok(true) = answer {
            assert(tracks(*mode, engine, i as int, true));
            return true;
        }
        assert forall|res: bool| #[trigger] tracks(*mode, engine, i + 1, res) implies tracks(
            *mode,
            engine,
            0,
            res,
        ) by {
            assert(tracks(*mode, engine, i as int, res));
        }
        i += 1;
    }
    assert(tracks(*mode, engine, i as int, false));
    false
}

/// The events of the wheel for a program that receives mouse events: the button of the direction
/// is pressed and released.
pub open spec fn wheel_events(up: bool) -> Seq<MouseInput> {
    let button = if up {
        Button::Four
    } else {
        Button::Five
    };
    seq![MouseInput::WheelPress(button), MouseInput::WheelRelease]
}

/// What the wheel does: a program that receives mouse events gets the wheel's, and else the
/// viewport is scrolled.
pub open spec fn wheeled<
    S,
    F: Fn(S, MouseInput) -> (S, Result<Vec<u8>>),
    M: Fn(&S, Mode) -> Result<bool>,
>(
    encode: F,
    mode: M,
    wheel: Option<Wheel>,
    start: S,
    before: Seq<u8>,
    after: Seq<u8>,
    engine: S,
    res: Result<Option<ScrollViewport>>,
) -> bool {
    match wheel {
        None => after == before && engine == start && res == Ok::<Option<ScrollViewport>, Error>(
            None,
        ),
        Some(wheel) => exists|tracking: bool| #[trigger]
            tracks(mode, &start, 0, tracking) && if tracking {
                exists|out: Result<()>| #[trigger]
                    sent(encode, wheel_events(wheel.up), 0, start, before, after, engine, out) && res
                        == unscrolled(out)
            } else {
                after == before && engine == start && res == Ok::<Option<ScrollViewport>, Error>(
                    Some(ScrollViewport::Delta(wheel.lines)),
                )
            },
    }
}

/// The result without a request to scroll.
pub open spec fn unscrolled(out: Result<()>) -> Result<Option<ScrollViewport>> {
    match out {
        Ok(_) => Ok(None),
        Err(e) => Err(e),
    }
}

/// Encode the mouse input of one frame and append the bytes to `response`.
///
/// Buttons and motion come first, and then the wheel. The result says how to scroll the viewport,
/// which happens if the wheel turned and no mouse tracking mode is set.
pub fn handle_mouse_input<
    S,
    F: Fn(S, MouseInput) -> (S, Result<Vec<u8>>),
    M: Fn(&S, Mode) -> Result<bool>,
>(
    buttons: &Buttons,
    moved: bool,
    wheel: Option<Wheel>,
    response: &mut Vec<u8>,
    engine: S,
    encode: F,
    mode: M,
) -> (res: (S, Result<Option<ScrollViewport>>))
    requires
        forall|s: S, input: MouseInput| #[trigger] encode.requires((s, input)),
        forall|s: &S, m: Mode| #[trigger] mode.requires((s, m)),
    ensures
        exists|middle: Seq<u8>, between: S, out: Result<()>|
            {
                &&& #[trigger] sent(
                    encode,
                    mouse_events(*buttons, moved),
                    0,
                    engine,
                    old(response)@,
                    middle,
                    between,
                    out,
                )
                &&& match out {
                    Ok(_) => wheeled(
                        encode,
                        mode,
                        wheel,
                        between,
                        middle,
                        final(response)@,
                        res.0,
                        res.1,
                    ),
                    Err(e) => final(response)@ == middle && res.0 == between && res.1 == Err::<
                        Option<ScrollViewport>,
                        Error,
                    >(e),
                }
            },
{
    let events = events_of(buttons, moved);
    let (state, first) = send(&events, response, engine, &encode);
    let ghost middle = response@;
    let ghost between = state;
    assert(sent(
        encode,
        mouse_events(*buttons, moved),
        0,
        engine,
        old(response)@,
        middle,
        between,
        first,
    ));
    if let Err(e) = first {
        return (state, Err(e));
    }
    match wheel {
        None => (state, Ok(None)),
        Some(wheel) => {
            let tracking = is_tracking(&state, &mode);
            assert(tracks(mode, &between, 0, tracking));
            if tracking {
                let button = if wheel.up {
                    Button::Four
                } else {
                    Button::Five
                };
                let mut events: Vec<MouseInput> = Vec::new();
                events.push(MouseInput::WheelPress(button));
                events.push(MouseInput::WheelRelease);
                assert(events@ =~= wheel_events(wheel.up));
                let (last, out) = send(&events, response, state, &encode);
                assert(sent(
                    encode,
                    wheel_events(wheel.up),
                    0,
                    between,
                    middle,
                    response@,
                    last,
                    out,
                ));
                match out {
                    Ok(_) => (last, Ok(None)),
                    Err(e) => (last, Err(e)),
                }
            } else {
                (state, Ok(Some(ScrollViewport::Delta(wheel.lines))))
            }
        },
    }
}

/// A program that receives no mouse events is sent nothing for the wheel, and one that does never
/// has its viewport scrolled.
pub proof fn the_wheel_does_one_thing<
    S,
    F: Fn(S, MouseInput) -> (S, Result<Vec<u8>>),
    M: Fn(&S, Mode) -> Result<bool>,
>(
    encode: F,
    mode: M,
    wheel: Option<Wheel>,
    start: S,
    before: Seq<u8>,
    after: Seq<u8>,
    engine: S,
    res: Result<Option<ScrollViewport>>,
)
    requires
        wheeled(encode, mode, wheel, start, before, after, engine, res),
    ensures
        before.is_prefix_of(after),
        res matches Ok(Some(_)) ==> after == before && engine == start && tracks(
            mode,
            &start,
            0,
            false,
        ),
        after != before ==> tracks(mode, &start, 0, true),
{
    if let Some(wheel) = wheel {
        let tracking = choose|tracking: bool| #[trigger]
            tracks(mode, &start, 0, tracking) && if tracking {
                exists|out: Result<()>| #[trigger]
                    sent(encode, wheel_events(wheel.up), 0, start, before, after, engine, out) && res
                        == unscrolled(out)
            } else {
                after == before && engine == start && res == Ok::<Option<ScrollViewport>, Error>(
                    Some(ScrollViewport::Delta(wheel.lines)),
                )
            };
        if tracking {
            let out = choose|out: Result<()>| #[trigger]
                sent(encode, wheel_events(wheel.up), 0, start, before, after, engine, out) && res
                    == unscrolled(out);
            sending_keeps_the_front(
                encode,
                wheel_events(wheel.up),
                0,
                start,
                before,
                after,
                engine,
                out,
            );
        }
    }
}

/// The events of a frame are what the mouse did: a button is released in them exactly if it was
/// released, and pressed exactly if it was pressed and not released. There is a motion exactly if
/// the mouse moved, and it comes with the first button that is held, left before right before
/// middle. There is nothing else in them, nothing twice, and the left button comes before the right
/// one, the middle one and the motion.
#[verifier::spinoff_prover]
#[verifier::rlimit(50)]
pub proof fn mouse_events_are_what_happened(
    buttons: Buttons,
    moved: bool,
    button: Button,
    state: ButtonState,
    held: Option<Button>,
)
    requires
        button == Button::Left && state == buttons.left || button == Button::Right && state
            == buttons.right || button == Button::Middle && state == buttons.middle,
    ensures
        ({
            let events = mouse_events(buttons, moved);
            &&& events.contains(
                MouseInput::Event { action: Action::Release, button: Some(button) },
            ) <==> state.released
            &&& events.contains(
                MouseInput::Event { action: Action::Press, button: Some(button) },
            ) <==> state.pressed && !state.released
            &&& events.contains(MouseInput::Event { action: Action::Motion, button: held }) <==> {
                &&& moved
                &&& held == Some(Button::Left) || !buttons.left.down
                &&& held == Some(Button::Left) ==> buttons.left.down
                &&& held == Some(Button::Right) || buttons.left.down || !buttons.right.down
                &&& held == Some(Button::Right) ==> buttons.right.down && !buttons.left.down
                &&& held == Some(Button::Middle) || buttons.left.down || buttons.right.down
                    || !buttons.middle.down
                &&& held == Some(Button::Middle) ==> buttons.middle.down && !buttons.right.down
                    && !buttons.left.down
                &&& held is None || held == Some(Button::Left) || held == Some(Button::Right)
                    || held == Some(Button::Middle)
            }
            &&& forall|k: int| 0 <= k < events.len() ==> event_rank(#[trigger] events[k]) is Some
            &&& forall|k: int, l: int|
                0 <= k < l < events.len() ==> event_rank(#[trigger] events[k])->0 < event_rank(
                    #[trigger] events[l],
                )->0
        }),
{
    let left = button_events(Button::Left, buttons.left);
    let right = button_events(Button::Right, buttons.right);
    let middle = button_events(Button::Middle, buttons.middle);
    let motion = if moved {
        seq![MouseInput::Event { action: Action::Motion, button: buttons.held() }]
    } else {
        seq![]
    };
    let events = mouse_events(buttons, moved);
    assert(events == left + right + middle + motion);
    assert(left.len() <= 1 && right.len() <= 1 && middle.len() <= 1 && motion.len() <= 1);
    let r = left.len() as int;
    let m = r + right.len();
    let n = m + middle.len();
    assert(left.len() == 1 ==> events[0] == left[0]);
    assert(right.len() == 1 ==> events[r] == right[0]);
    assert(middle.len() == 1 ==> events[m] == middle[0]);
    assert(motion.len() == 1 ==> events[n] == motion[0]);
    assert(forall|k: int|
        0 <= k < events.len() ==> #[trigger] events[k] == events[k] && (k == 0 && left.len() == 1
            || k == r && right.len() == 1 || k == m && middle.len() == 1 || k == n && motion.len()
            == 1));
}

/// The place of an event among those of a frame, if it can be one of them.
pub open spec fn event_rank(event: MouseInput) -> Option<int> {
    match event {
        MouseInput::Event { action: Action::Motion, .. } => Some(3),
        MouseInput::Event { button: Some(Button::Left), .. } => Some(0),
        MouseInput::Event { button: Some(Button::Right), .. } => Some(1),
        MouseInput::Event { button: Some(Button::Middle), .. } => Some(2),
        _ => None,
    }
}

/// A program receives mouse events exactly if one of the DEC modes 9, 1000, 1002 and 1003 is set.
/// `is_set` says of a mode whether it is.
pub proof fn tracking_is_any_of_four_modes<S, M: Fn(&S, Mode) -> Result<bool>>(
    mode: M,
    engine: &S,
    is_set: spec_fn(u16) -> bool,
    res: bool,
)
    requires
        forall|m: Mode, answer: Result<bool>| #[trigger]
            mode.ensures((engine, m), answer) ==> (answer == Ok::<bool, Error>(true) <==> is_set(
                m.0,
            )),
        tracks(mode, engine, 0, res),
    ensures
        res <==> is_set(9) || is_set(1000) || is_set(1002) || is_set(1003),
{
    reveal_with_fuel(tracks, 5);
    assert(tracking_mode(0).0 == 9);
    assert(tracking_mode(1).0 == 1000);
    assert(tracking_mode(2).0 == 1002);
    assert(tracking_mode(3).0 == 1003);
}

/// A wheel that turns scrolls the viewport by as many lines as it says, exactly if the program
/// receives no mouse events. Else the fourth button stands for up and the fifth for down, which is
/// pressed and then released.
pub proof fn the_wheel_scrolls_or_is_sent<
    S,
    F: Fn(S, MouseInput) -> (S, Result<Vec<u8>>),
    M: Fn(&S, Mode) -> Result<bool>,
>(
    encode: F,
    mode: M,
    wheel: Wheel,
    button: Button,
    is_set: spec_fn(u16) -> bool,
    start: S,
    before: Seq<u8>,
    after: Seq<u8>,
    engine: S,
    res: Result<Option<ScrollViewport>>,
)
    requires
        forall|m: Mode, answer: Result<bool>| #[trigger]
            mode.ensures((&start, m), answer) ==> (answer == Ok::<bool, Error>(true) <==> is_set(
                m.0,
            )),
        wheel.up ==> button == Button::Four,
        !wheel.up ==> button == Button::Five,
        wheeled(encode, mode, Some(wheel), start, before, after, engine, res),
    ensures
        !(is_set(9) || is_set(1000) || is_set(1002) || is_set(1003)) ==> {
            &&& res == Ok::<Option<ScrollViewport>, Error>(
                Some(ScrollViewport::Delta(wheel.lines)),
            )
            &&& after == before
            &&& engine == start
        },
        (is_set(9) || is_set(1000) || is_set(1002) || is_set(1003)) ==> {
            &&& res is Err || res == Ok::<Option<ScrollViewport>, Error>(None)
            &&& exists|pressed: (S, Result<Vec<u8>>)|
                {
                    &&& #[trigger] encode.ensures(
                        (start, MouseInput::WheelPress(button)),
                        pressed,
                    )
                    &&& match pressed.1 {
                        Err(e) => {
                            &&& res == Err::<Option<ScrollViewport>, Error>(e)
                            &&& after == before
                            &&& engine == pressed.0
                        },
                        Ok(first) => exists|released: (S, Result<Vec<u8>>)|
                            {
                                &&& #[trigger] encode.ensures(
                                    (pressed.0, MouseInput::WheelRelease),
                                    released,
                                )
                                &&& engine == released.0
                                &&& match released.1 {
                                    Err(e) => {
                                        &&& res == Err::<Option<ScrollViewport>, Error>(e)
                                        &&& after == before + first@
                                    },
                                    Ok(second) => {
                                        &&& res == Ok::<Option<ScrollViewport>, Error>(None)
                                        &&& after == before + first@ + second@
                                    },
                                }
                            },
                    }
                }
        },
{
    let tracking = choose|tracking: bool| #[trigger]
        tracks(mode, &start, 0, tracking) && if tracking {
            exists|out: Result<()>| #[trigger]
                sent(encode, wheel_events(wheel.up), 0, start, before, after, engine, out) && res
                    == unscrolled(out)
        } else {
            after == before && engine == start && res == Ok::<Option<ScrollViewport>, Error>(
                Some(ScrollViewport::Delta(wheel.lines)),
            )
        };
    tracking_is_any_of_four_modes(mode, &start, is_set, tracking);
    if tracking {
        let out = choose|out: Result<()>| #[trigger]
            sent(encode, wheel_events(wheel.up), 0, start, before, after, engine, out) && res
                == unscrolled(out);
        let events = wheel_events(wheel.up);
        assert(events.len() == 2);
        let pressed = choose|p: (S, Result<Vec<u8>>)| #[trigger]
            encode.ensures((start, events[0]), p) && match p.1 {
                Ok(bytes) => sent(encode, events, 1, p.0, before + bytes@, after, engine, out),
                Err(e) => after == before && engine == p.0 && out == Err::<(), Error>(e),
            };
        assert(encode.ensures((start, MouseInput::WheelPress(button)), pressed));
        if let Ok(first) = pressed.1 {
            let released = choose|p: (S, Result<Vec<u8>>)| #[trigger]
                encode.ensures((pressed.0, events[1]), p) && match p.1 {
                    Ok(bytes) => sent(
                        encode,
                        events,
                        2,
                        p.0,
                        before + first@ + bytes@,
                        after,
                        engine,
                        out,
                    ),
                    Err(e) => after == before + first@ && engine == p.0 && out == Err::<
                        (),
                        Error,
                    >(e),
                };
            assert(encode.ensures((pressed.0, MouseInput::WheelRelease), released));
        }
    }
}

/// A frame makes at most one event of each button and one of the motion, and a button that did
/// nothing makes none.
pub proof fn mouse_events_are_few(buttons: Buttons, moved: bool)
    ensures
        mouse_events(buttons, moved).len() <= 4,
        !moved && !buttons.left.pressed && !buttons.left.released && !buttons.right.pressed
            && !buttons.right.released && !buttons.middle.pressed && !buttons.middle.released
            ==> mouse_events(buttons, moved).len() == 0,
{
}

} // verus!
