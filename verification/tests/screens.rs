use libghostty_vt::buffer::BufReply;
use libghostty_vt::error::Error;
use libghostty_vt::reply::Reply;
use libghostty_vt::screen::{
    Cell, CellContentTag, CellData, CellSemanticContent, CellWide, GridRef, Row, RowData,
    RowSemanticPrompt,
};
use libghostty_vt::style::{Id, PaletteIndex, RgbColor};

fn yes<T: PartialEq + std::fmt::Debug, G: PartialEq + std::fmt::Debug>(
    object: T,
    tag: G,
) -> impl FnOnce(T, G) -> Reply<bool> {
    move |o, t| {
        assert_eq!((o, t), (object, tag));
        Reply { code: 0, value: true }
    }
}

fn number(tag: CellData, value: u32) -> impl FnOnce(u64, CellData) -> Reply<u32> {
    move |o, t| {
        assert_eq!((o, t), (7, tag));
        Reply { code: 0, value }
    }
}

#[test]
fn rows_are_asked_by_tag() {
    let row = Row(5);
    assert_eq!(row.is_wrapped(yes(5, RowData::Wrap)), Ok(true));
    assert_eq!(row.is_wrap_continuation(yes(5, RowData::WrapContinuation)), Ok(true));
    assert_eq!(row.has_grapheme_cluster(yes(5, RowData::Grapheme)), Ok(true));
    assert_eq!(row.is_styled(yes(5, RowData::Styled)), Ok(true));
    assert_eq!(row.has_hyperlink(yes(5, RowData::Hyperlink)), Ok(true));
    assert_eq!(
        row.has_kitty_virtual_placeholder(yes(5, RowData::KittyVirtualPlaceholder)),
        Ok(true)
    );
    assert_eq!(row.is_dirty(yes(5, RowData::Dirty)), Ok(true));
    assert_eq!(
        row.is_dirty(|_, _| Reply { code: -2, value: true }),
        Err(Error::InvalidValue)
    );
}

#[test]
fn semantic_prompts_decode() {
    let ask = |value| Row(5).semantic_prompt(move |_, _| Reply { code: 0, value });
    assert_eq!(ask(0), Ok(RowSemanticPrompt::NoPrompt));
    assert_eq!(ask(1), Ok(RowSemanticPrompt::Prompt));
    assert_eq!(ask(2), Ok(RowSemanticPrompt::Continuation));
    assert_eq!(ask(3), Err(Error::InvalidValue));
}

#[test]
fn cells_are_asked_by_tag() {
    let cell = Cell(7);
    assert_eq!(cell.codepoint(number(CellData::Codepoint, 0x41)), Ok(0x41));
    assert_eq!(cell.has_text(yes(7, CellData::HasText)), Ok(true));
    assert_eq!(cell.has_styling(yes(7, CellData::HasStyling)), Ok(true));
    assert_eq!(cell.has_hyperlink(yes(7, CellData::HasHyperlink)), Ok(true));
    assert_eq!(cell.is_protected(yes(7, CellData::Protected)), Ok(true));
    assert_eq!(
        cell.style_id(|_, tag| {
            assert_eq!(tag, CellData::StyleId);
            Reply { code: 0, value: 3 }
        }),
        Ok(Id(3))
    );
    assert_eq!(
        cell.bg_color_palette(|_, tag| {
            assert_eq!(tag, CellData::ColorPalette);
            Reply { code: 0, value: 200 }
        }),
        Ok(PaletteIndex(200))
    );
    let blue = RgbColor { r: 0, g: 0, b: 9 };
    assert_eq!(
        cell.bg_color_rgb(|_, tag| {
            assert_eq!(tag, CellData::ColorRgb);
            Reply { code: 0, value: blue }
        }),
        Ok(blue)
    );
}

#[test]
fn cell_enums_decode() {
    let cell = Cell(7);
    assert_eq!(cell.content_tag(number(CellData::ContentTag, 0)), Ok(CellContentTag::Codepoint));
    assert_eq!(
        cell.content_tag(number(CellData::ContentTag, 1)),
        Ok(CellContentTag::CodepointGrapheme)
    );
    assert_eq!(
        cell.content_tag(number(CellData::ContentTag, 2)),
        Ok(CellContentTag::BgColorPalette)
    );
    assert_eq!(cell.content_tag(number(CellData::ContentTag, 3)), Ok(CellContentTag::BgColorRgb));
    assert_eq!(cell.content_tag(number(CellData::ContentTag, 4)), Err(Error::InvalidValue));
    assert_eq!(cell.wide(number(CellData::Wide, 0)), Ok(CellWide::Narrow));
    assert_eq!(cell.wide(number(CellData::Wide, 1)), Ok(CellWide::Wide));
    assert_eq!(cell.wide(number(CellData::Wide, 2)), Ok(CellWide::SpacerTail));
    assert_eq!(cell.wide(number(CellData::Wide, 3)), Ok(CellWide::SpacerHead));
    assert_eq!(cell.wide(number(CellData::Wide, 9)), Err(Error::InvalidValue));
    let semantic = |v| cell.semantic_content(number(CellData::SemanticContent, v));
    assert_eq!(semantic(0), Ok(CellSemanticContent::Output));
    assert_eq!(semantic(1), Ok(CellSemanticContent::Input));
    assert_eq!(semantic(2), Ok(CellSemanticContent::Prompt));
    assert_eq!(semantic(3), Err(Error::InvalidValue));
}

#[test]
fn grid_references_lead_to_rows_and_cells() {
    let at = GridRef { node: 1, x: 2, y: 3 };
    assert_eq!(at.row(|r| Reply { code: 0, value: u64::from(r.y) }), Ok(Row(3)));
    assert_eq!(at.cell(|r| Reply { code: 0, value: u64::from(r.x) }), Ok(Cell(2)));
    assert_eq!(at.cell(|_| Reply { code: -1, value: 0 }), Err(Error::OutOfMemory));
}

#[test]
fn graphemes_fill_the_front_of_the_buffer() {
    let at = GridRef { node: 1, x: 0, y: 0 };
    let mut buf = ['-'; 3];
    let res = at.graphemes(&mut buf, |_, room| {
        assert_eq!(room, 3);
        BufReply { code: 0, len: 2, out: vec!['e', '\u{301}'] }
    });
    assert_eq!(res, Ok(2));
    assert_eq!(buf, ['e', '\u{301}', '-']);
    let res = at.graphemes(&mut buf[..1], |_, _| BufReply { code: -3, len: 2, out: vec![] });
    assert_eq!(res, Err(Error::OutOfSpace { required: 2 }));
}

/// Cells outside of the library: the low bits of a number say what it holds, and the rest which one.
fn held(cell: u64) -> (u32, u64) {
    ((cell % 4) as u32, cell / 4)
}

fn ask_codepoint(cell: u64, _: CellData) -> Reply<u32> {
    let (tag, value) = held(cell);
    Reply { code: 0, value: if tag < 2 { value as u32 } else { 0 } }
}

fn ask_tag(cell: u64, _: CellData) -> Reply<u32> {
    Reply { code: 0, value: held(cell).0 }
}

fn ask_text(cell: u64, _: CellData) -> Reply<bool> {
    let (tag, value) = held(cell);
    Reply { code: 0, value: tag < 2 && value != 0 }
}

#[test]
fn answers_about_cells_agree() {
    // Nothing, a letter, a cluster, and two background colors.
    for (cell, codepoint, text) in
        [(0, 0, false), (0x61 * 4, 0x61, true), (0x65 * 4 + 1, 0x65, true)]
    {
        assert_eq!(Cell(cell).codepoint(ask_codepoint), Ok(codepoint));
        assert_eq!(Cell(cell).has_text(ask_text), Ok(text));
    }
    for cell in [200 * 4 + 2, 0xff00ff * 4 + 3] {
        let tag = Cell(cell).content_tag(ask_tag).unwrap();
        assert!(matches!(tag, CellContentTag::BgColorPalette | CellContentTag::BgColorRgb));
        assert_eq!(Cell(cell).codepoint(ask_codepoint), Ok(0));
        assert_eq!(Cell(cell).has_text(ask_text), Ok(false));
    }
}

#[test]
fn answers_about_rows_and_cells_agree() {
    let plain = vec![0u64, 0x61 * 4, 7 * 4 + 2];
    let clustered = vec![0u64, 0x65 * 4 + 1];
    for (cells, expected) in [(plain, false), (clustered, true), (vec![], false)] {
        let row = Row(9);
        let has = row.has_grapheme_cluster(|_, _| Reply {
            code: 0,
            value: cells.iter().any(|&cell| held(cell).0 == 1),
        });
        assert_eq!(has, Ok(expected));
        let any = cells
            .iter()
            .any(|&cell| Cell(cell).content_tag(ask_tag) == Ok(CellContentTag::CodepointGrapheme));
        assert_eq!(any, expected);
        // A row that says that none of its cells is styled means it.
        let styled = |cell: u64, _: CellData| Reply { code: 0, value: cell % 8 == 4 };
        let row_styled = row.is_styled(|_, _| Reply {
            code: 0,
            value: cells.iter().any(|&cell| cell % 8 == 4),
        });
        let any = cells.iter().any(|&cell| Cell(cell).has_styling(styled) == Ok(true));
        assert_eq!(row_styled, Ok(any));
    }
}
