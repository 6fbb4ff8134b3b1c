use libghostty_vt::error::Error;
use libghostty_vt::memory::NewReply;
use libghostty_vt::sgr::{Attribute, Parser, RawAttribute, Unknown};
use libghostty_vt::style::{
    PaletteIndex, RawStyle, RawStyleColor, RgbColor, Style, StyleColor, Underline,
};

const RED: RgbColor = RgbColor { r: 255, g: 0, b: 0 };

fn color(tag: u32) -> RawStyleColor {
    RawStyleColor { tag, palette: 9, rgb: RED }
}

fn style() -> RawStyle {
    RawStyle {
        fg_color: color(1),
        bg_color: color(2),
        underline_color: color(0),
        bold: true,
        italic: false,
        faint: true,
        blink: false,
        inverse: true,
        invisible: false,
        strikethrough: true,
        overline: false,
        underline: 3,
    }
}

#[test]
fn style_colors_decode_by_their_tag() {
    assert_eq!(StyleColor::from_raw(color(0)), Ok(StyleColor::NoColor));
    assert_eq!(
        StyleColor::from_raw(color(1)),
        Ok(StyleColor::Palette(PaletteIndex(9)))
    );
    assert_eq!(StyleColor::from_raw(color(2)), Ok(StyleColor::Rgb(RED)));
    assert_eq!(StyleColor::from_raw(color(3)), Err(Error::InvalidValue));
}

#[test]
fn styles_decode_field_by_field() {
    let decoded = Style::from_raw(style()).unwrap();
    assert_eq!(
        decoded,
        Style {
            fg_color: StyleColor::Palette(PaletteIndex(9)),
            bg_color: StyleColor::Rgb(RED),
            underline_color: StyleColor::NoColor,
            bold: true,
            italic: false,
            faint: true,
            blink: false,
            inverse: true,
            invisible: false,
            strikethrough: true,
            overline: false,
            underline: Underline::Curly,
        }
    );
}

#[test]
fn a_style_with_an_unknown_part_is_invalid() {
    for broken in [
        RawStyle { fg_color: color(3), ..style() },
        RawStyle { bg_color: color(4), ..style() },
        RawStyle { underline_color: color(u32::MAX), ..style() },
        RawStyle { underline: 6, ..style() },
        RawStyle { underline: -1, ..style() },
    ] {
        assert_eq!(Style::from_raw(broken), Err(Error::InvalidValue));
    }
}

#[test]
fn underlines_have_numbers() {
    let all = [
        Underline::NoLine,
        Underline::Single,
        Underline::Double,
        Underline::Curly,
        Underline::Dotted,
        Underline::Dashed,
    ];
    for (i, underline) in all.into_iter().enumerate() {
        assert_eq!(underline.code(), i as u32);
        assert_eq!(Underline::from_raw(i as u32), Ok(underline));
    }
    assert_eq!(Underline::from_raw(6), Err(Error::InvalidValue));
}

#[test]
fn palette_colors_have_indices() {
    assert_eq!(PaletteIndex::BLACK, 0);
    assert_eq!(PaletteIndex::WHITE, 7);
    assert_eq!(PaletteIndex::BRIGHT_BLACK, 8);
    assert_eq!(PaletteIndex::BRIGHT_WHITE, 15);
}

fn attribute<'p>(tag: u32, full: &'p [u16], partial: &'p [u16]) -> RawAttribute<'p> {
    RawAttribute {
        tag,
        unknown: Unknown { full, partial },
        underline: 2,
        color: RED,
        index: 12,
    }
}

#[test]
fn attributes_decode_by_their_tag() {
    let index = PaletteIndex(12);
    let unknown = Unknown { full: &[1, 2], partial: &[2] };
    let expected = [
        Attribute::Unset,
        Attribute::Unknown(unknown),
        Attribute::Bold,
        Attribute::ResetBold,
        Attribute::Italic,
        Attribute::ResetItalic,
        Attribute::Faint,
        Attribute::Underline(Underline::Double),
        Attribute::UnderlineColor(RED),
        Attribute::UnderlineColor256(index),
        Attribute::ResetUnderlineColor,
        Attribute::Overline,
        Attribute::ResetOverline,
        Attribute::Blink,
        Attribute::ResetBlink,
        Attribute::Inverse,
        Attribute::ResetInverse,
        Attribute::Invisible,
        Attribute::ResetInvisible,
        Attribute::Strikethrough,
        Attribute::ResetStrikethrough,
        Attribute::DirectColorFg(RED),
        Attribute::DirectColorBg(RED),
        Attribute::Bg8(index),
        Attribute::Fg8(index),
        Attribute::ResetFg,
        Attribute::ResetBg,
        Attribute::BrightBg8(index),
        Attribute::BrightFg8(index),
        Attribute::Bg256(index),
        Attribute::Fg256(index),
    ];
    for (tag, expected) in expected.into_iter().enumerate() {
        let raw = attribute(tag as u32, &[1, 2], &[2]);
        assert_eq!(Attribute::from_raw(raw), Ok(expected));
    }
    assert_eq!(
        Attribute::from_raw(attribute(31, &[], &[])),
        Err(Error::InvalidValue)
    );
}

#[test]
fn an_underline_attribute_needs_a_known_style() {
    let raw = RawAttribute { underline: 6, ..attribute(7, &[], &[]) };
    assert_eq!(Attribute::from_raw(raw), Err(Error::InvalidValue));
    let ignored = RawAttribute { underline: 6, ..attribute(2, &[], &[]) };
    assert_eq!(Attribute::from_raw(ignored), Ok(Attribute::Bold));
}

#[test]
fn the_sgr_parser_hands_its_parameters_over() {
    let mut parser = Parser::new(|_| NewReply { code: 0, raw: 0x99 }).unwrap();
    let res = parser.set_params(&[4, 3], Some(b":;"), &mut (), |_, raw, params, seps| {
        assert_eq!(raw, 0x99);
        assert_eq!(params, [4, 3]);
        assert_eq!(seps, Some(b":;".as_slice()));
        ((), 0)
    });
    assert_eq!(res, Ok(()));
    let res = parser.set_params(&[1], None, &mut (), |_, _, _, seps| {
        assert_eq!(seps, None);
        ((), -1)
    });
    assert_eq!(res, Err(Error::OutOfMemory));
    parser.reset(&mut (), |_, raw| assert_eq!(raw, 0x99));
}

#[test]
fn the_sgr_parser_ends_with_nothing() {
    let mut parser = Parser::new(|_| NewReply { code: 0, raw: 1 }).unwrap();
    assert_eq!(
        parser.next(&mut (), |_, _| ((), Some(attribute(24, &[], &[])))),
        Ok(Some(Attribute::Fg8(PaletteIndex(12))))
    );
    assert_eq!(parser.next(&mut (), |_, _| ((), None)), Ok(None));
    assert_eq!(
        parser.next(&mut (), |_, _| ((), Some(attribute(99, &[], &[])))),
        Err(Error::InvalidValue)
    );
}

/// A parser outside of the library that knows bold text, underlines and nothing else.
#[derive(Clone, Default)]
struct Model {
    params: Vec<u16>,
    colons: Vec<bool>,
    at: usize,
}

fn model_set(_: &Model, _: usize, params: &[u16], seps: Option<&[u8]>) -> (Model, i32) {
    let colons = match seps {
        Some(seps) => seps.iter().map(|&sep| sep == b':').collect(),
        None => vec![false; params.len()],
    };
    (Model { params: params.to_vec(), colons, at: 0 }, 0)
}

fn model_next(engine: &Model, _: usize) -> (Model, Option<RawAttribute<'static>>) {
    let mut engine = engine.clone();
    let Some(&param) = engine.params.get(engine.at) else {
        return (engine, None);
    };
    let colon = engine.colons[engine.at];
    engine.at += 1;
    let raw = match param {
        1 => attribute(2, &[], &[]),
        4 if colon => {
            let underline = u32::from(engine.params[engine.at]);
            engine.at += 1;
            RawAttribute { underline, ..attribute(7, &[], &[]) }
        }
        4 => RawAttribute { underline: 1, ..attribute(7, &[], &[]) },
        _ => attribute(4, &[], &[]),
    };
    (engine, Some(raw))
}

fn model_reset(engine: &Model, _: usize) -> Model {
    Model { at: 0, ..engine.clone() }
}

/// The attributes of the rest of the list.
fn rest(parser: &mut Parser, engine: &mut Model) -> Vec<Attribute<'static>> {
    let mut attributes = Vec::new();
    while let Some(attribute) = parser.next(engine, model_next).unwrap() {
        attributes.push(attribute);
    }
    attributes
}

#[test]
fn separators_that_are_no_colons_are_semicolons() {
    let mut parser = Parser::new(|_| NewReply { code: 0, raw: 1 }).unwrap();
    let mut attributes = |seps: Option<&[u8]>| {
        let mut engine = Model::default();
        parser.set_params(&[1, 4, 3], seps, &mut engine, model_set).unwrap();
        rest(&mut parser, &mut engine)
    };
    let plain = attributes(None);
    assert_eq!(plain.len(), 3);
    assert_eq!(attributes(Some(b";;;")), plain);
    assert_eq!(attributes(Some(b" ,\0")), plain);
    assert_eq!(
        attributes(Some(b";:;")),
        [Attribute::Bold, Attribute::Underline(Underline::Curly)]
    );
}

#[test]
fn a_reset_parser_starts_over() {
    let mut parser = Parser::new(|_| NewReply { code: 0, raw: 1 }).unwrap();
    let mut engine = Model::default();
    parser.set_params(&[1, 4, 3, 1], Some(b";:;;"), &mut engine, model_set).unwrap();
    let all = rest(&mut parser, &mut engine);
    assert_eq!(all.len(), 3);
    for steps in 0..5 {
        parser.reset(&mut engine, model_reset);
        assert_eq!(rest(&mut parser, &mut engine), all);
        parser.reset(&mut engine, model_reset);
        for _ in 0..steps {
            parser.next(&mut engine, model_next).unwrap();
        }
        parser.reset(&mut engine, model_reset);
        parser.reset(&mut engine, model_reset);
        assert_eq!(rest(&mut parser, &mut engine), all);
    }
}
