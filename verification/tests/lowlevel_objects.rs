use libghostty_vt::buffer::BufReply;
use libghostty_vt::error::Error;
use libghostty_vt::key::EncoderOption as KeyOption;
use libghostty_vt::lowlevel::{
    cell_get_codepoint, cell_get_color_palette, cell_get_color_rgb, cell_get_content_tag,
    KeyEncoder, KeyEvent, MouseEncoder, MouseEvent, RenderState, RenderStateRowCells,
    RenderStateRowIterator,
};
use libghostty_vt::memory::NewReply;
use libghostty_vt::mouse::{EncoderOption as MouseOption, Position};
use libghostty_vt::render::{
    IterationCellData, IterationRowData, IterationRowOption, RawColors, RenderStateData,
    RenderStateOption,
};
use libghostty_vt::reply::Reply;
use libghostty_vt::screen::CellData;
use libghostty_vt::style::{RawStyle, RawStyleColor, RgbColor};
use libghostty_vt::terminal::{Options, Terminal};

const RED: RgbColor = RgbColor { r: 255, g: 0, b: 0 };

fn made(raw: usize) -> impl FnOnce(usize) -> NewReply {
    move |alloc| {
        assert_eq!(alloc, 0);
        NewReply { code: 0, raw }
    }
}

fn terminal() -> Terminal {
    let opts = Options { cols: 80, rows: 24, max_scrollback: 0 };
    Terminal::new(opts, |_, _| NewReply { code: 0, raw: 1 }).unwrap()
}

fn raw_style() -> RawStyle {
    let color = RawStyleColor { tag: 9, palette: 1, rgb: RED };
    RawStyle {
        fg_color: color,
        bg_color: color,
        underline_color: color,
        bold: true,
        italic: false,
        faint: false,
        blink: false,
        inverse: false,
        invisible: false,
        strikethrough: false,
        overline: false,
        underline: 99,
    }
}

#[test]
fn low_level_render_states_answer_numbers() {
    let mut state = RenderState::new(made(2)).unwrap();
    let res = state.update(&mut terminal(), |state, terminal| {
        assert_eq!((state, terminal), (2, 1));
        0
    });
    assert_eq!(res, Ok(()));
    let small = |tag: RenderStateData| {
        move |raw: usize, asked: RenderStateData| {
            assert_eq!((raw, asked), (2, tag));
            Reply { code: 0, value: 12u16 }
        }
    };
    assert_eq!(state.cols(small(RenderStateData::Cols)), Ok(12));
    assert_eq!(state.rows(small(RenderStateData::Rows)), Ok(12));
    assert_eq!(state.cursor_viewport_x(small(RenderStateData::CursorViewportX)), Ok(12));
    assert_eq!(state.cursor_viewport_y(small(RenderStateData::CursorViewportY)), Ok(12));
    assert_eq!(state.dirty(|_, _| Reply { code: 0, value: 7 }), Ok(7));
    assert_eq!(state.cursor_visible(|_, _| Reply { code: 0, value: true }), Ok(true));
    assert_eq!(
        state.cursor_viewport_has_value(|_, tag| {
            assert_eq!(tag, RenderStateData::CursorViewportHasValue);
            Reply { code: -1, value: true }
        }),
        Err(Error::OutOfMemory)
    );
    let res = state.set_dirty(5, |raw, option, value| {
        assert_eq!((raw, option, value), (2, RenderStateOption::Dirty, 5));
        0
    });
    assert_eq!(res, Ok(()));
    let colors = RawColors {
        background: RED,
        foreground: RED,
        cursor: RED,
        cursor_has_value: false,
        palette: [RED; 256],
    };
    let res = state.colors_get(|_| Reply { code: 0, value: colors }).unwrap();
    assert_eq!((res.cursor, res.cursor_has_value), (RED, false));
}

#[test]
fn low_level_rows_and_cells_are_walked() {
    let state = RenderState::new(made(2)).unwrap();
    let mut rows = RenderStateRowIterator::new(made(3)).unwrap();
    let mut cells = RenderStateRowCells::new(made(4)).unwrap();
    let res = state.populate_row_iterator(&mut rows, |state, rows| {
        assert_eq!((state, rows), (2, 3));
        0
    });
    assert_eq!(res, Ok(()));
    assert!(rows.advance(|raw| raw == 3));
    assert!(!rows.advance(|_| false));
    assert_eq!(rows.raw_row(|_, _| Reply { code: 0, value: 8 }), Ok(8));
    let dirty = rows.dirty(|_, tag| {
        assert_eq!(tag, IterationRowData::Dirty);
        Reply { code: 0, value: true }
    });
    assert_eq!(dirty, Ok(true));
    assert_eq!(rows.set_dirty(false, |_, _, _| 0), Ok(()));
    assert_eq!(rows.populate_cells(&mut cells, |_, _| -2), Err(Error::InvalidValue));
    let mut walk = rows.rows();
    let row = walk.next(|_| true).unwrap();
    assert_eq!(row.raw_row(|_, _| Reply { code: 0, value: 9 }), Ok(9));
    assert_eq!(row.dirty(|_, _| Reply { code: 0, value: false }), Ok(false));
    let res = row.set_dirty(true, |raw, option, value| {
        assert_eq!((raw, option, value), (3, IterationRowOption::Dirty, true));
        0
    });
    assert_eq!(res, Ok(()));
    let res = row.populate_cells(&mut cells, |row, cells| {
        assert_eq!((row, cells), (3, 4));
        0
    });
    assert_eq!(res, Ok(()));
    assert!(walk.next(|_| false).is_none());
    assert!(cells.advance(|raw| raw == 4));
    assert_eq!(cells.select(6, |_, x| i32::from(x) - 6), Ok(()));
    assert_eq!(cells.raw_cell(|_, _| Reply { code: 0, value: 10 }), Ok(10));
    assert_eq!(cells.graphemes_len(|_, _| Reply { code: 0, value: 2 }), Ok(2));
    let mut buf = ['.'; 3];
    let res = cells.graphemes_buf(&mut buf, |raw, room| {
        assert_eq!((raw, room), (4, 3));
        BufReply { code: 0, len: 1, out: vec!['x'] }
    });
    assert_eq!(res, Ok(()));
    assert_eq!(buf, ['x', '.', '.']);
    let mut walk = cells.cells();
    let cell = walk.next(|_| true).unwrap();
    assert_eq!(cell.raw_cell(|_, _| Reply { code: 0, value: 11 }), Ok(11));
    let style = cell.style(|_, tag| {
        assert_eq!(tag, IterationCellData::Style);
        Reply { code: 0, value: raw_style() }
    });
    assert_eq!(style.unwrap().underline, 99);
    assert_eq!(cell.graphemes_len(|_, _| Reply { code: -1, value: 2 }), Err(Error::OutOfMemory));
    assert!(walk.next(|_| false).is_none());
}

#[test]
fn low_level_keys_are_numbers() {
    let mut event = KeyEvent::new(made(5)).unwrap();
    event.set_action(1, &mut (), |_, raw, value| assert_eq!((raw, value), (5, 1)));
    event.set_key(20, &mut (), |_, _, value| assert_eq!(value, 20));
    event.set_mods(3, &mut (), |_, _, value| assert_eq!(value, 3));
    event.set_consumed_mods(1, &mut (), |_, _, value| assert_eq!(value, 1));
    event.set_composing(true, &mut (), |_, _, value| assert!(value));
    event.set_utf8(Some(b"a"), &mut (), |_, _, value| assert_eq!(value, Some(b"a".as_slice())));
    event.set_unshifted_codepoint(97, &mut (), |_, _, value| assert_eq!(value, 97));
    assert_eq!(event.get_action(&(), |_, _| 2), 2);
    assert_eq!(event.get_key(&(), |_, _| 20), 20);
    assert_eq!(event.get_mods(&(), |_, _| 4), 4);
    assert_eq!(event.get_consumed_mods(&(), |_, _| 5), 5);
    assert!(!event.get_composing(&(), |_, _| false));
    assert_eq!(event.get_unshifted_codepoint(&(), |_, _| 0xd800), 0xd800);
    let mut encoder = KeyEncoder::new(made(6)).unwrap();
    encoder.setopt(KeyOption::AltEscPrefix, true, &mut (), |_, raw, option, value: bool| {
        assert_eq!((raw, option, value), (6, KeyOption::AltEscPrefix, true));
    });
    encoder.setopt_from_terminal(&terminal(), &mut (), |_, raw, term| {
        assert_eq!((raw, term), (6, 1));
    });
    let mut buf = [0; 4];
    let res = encoder.encode(&event, &mut buf, &mut (), |_, encoder, event, room| {
        assert_eq!((encoder, event, room), (6, 5, 4));
        ((), BufReply { code: 0, len: 1, out: vec![b'a'] })
    });
    assert_eq!(res, Ok(1));
    assert_eq!(buf, [b'a', 0, 0, 0]);
}

#[test]
fn low_level_mice_are_numbers() {
    let mut event = MouseEvent::new(made(7)).unwrap();
    let at = Position { x_bits: 1, y_bits: 2 };
    event.set_action(2, &mut (), |_, raw, value| assert_eq!((raw, value), (7, 2)));
    event.set_button(1, &mut (), |_, _, value| assert_eq!(value, 1));
    event.clear_button(&mut (), |_, raw| assert_eq!(raw, 7));
    event.set_mods(4, &mut (), |_, _, value| assert_eq!(value, 4));
    event.set_position(at, &mut (), |_, _, value| assert_eq!(value, at));
    assert_eq!(event.get_action(&(), |_, _| 1), 1);
    assert_eq!(event.get_button(&(), |_, _| Some(3)), Some(3));
    assert_eq!(event.get_button(&(), |_, _| None), None);
    assert_eq!(event.get_mods(&(), |_, _| 8), 8);
    assert_eq!(event.get_position(&(), |_, _| at), at);
    let mut encoder = MouseEncoder::new(made(8)).unwrap();
    encoder.reset(&mut (), |_, raw| assert_eq!(raw, 8));
    encoder.setopt(MouseOption::Format, 2u32, &mut (), |_, _, option, value: u32| {
        assert_eq!((option, value), (MouseOption::Format, 2));
    });
    encoder.setopt_from_terminal(&terminal(), &mut (), |_, raw, term| {
        assert_eq!((raw, term), (8, 1));
    });
    let res = encoder.encode(&event, &mut [], &mut (), |_, _, _, room| {
        assert_eq!(room, 0);
        ((), BufReply { code: -3, len: 6, out: vec![] })
    });
    assert_eq!(res, Err(Error::OutOfSpace { required: 6 }));
}

#[test]
fn low_level_cells_answer_numbers() {
    let ask = |tag: CellData| {
        move |cell: u64, asked: CellData| {
            assert_eq!((cell, asked), (70, tag));
            Reply { code: 0, value: 3u32 }
        }
    };
    assert_eq!(cell_get_content_tag(70, ask(CellData::ContentTag)), Ok(3));
    assert_eq!(cell_get_codepoint(70, ask(CellData::Codepoint)), Ok(3));
    assert_eq!(
        cell_get_color_palette(70, |_, tag| {
            assert_eq!(tag, CellData::ColorPalette);
            Reply { code: 0, value: 200 }
        }),
        Ok(200)
    );
    assert_eq!(
        cell_get_color_rgb(70, |_, tag| {
            assert_eq!(tag, CellData::ColorRgb);
            Reply { code: -2, value: RED }
        }),
        Err(Error::InvalidValue)
    );
}
