use libghostty_vt::error::Error;
use libghostty_vt::memory::{Allocator, NewReply};
use libghostty_vt::render::{
    CellIterator, CursorViewport, CursorVisualStyle, Dirty, IterationCellData, IterationRowData,
    IterationRowOption, RawColors, RenderState, RenderStateData, RenderStateOption, RowIterator,
};
use libghostty_vt::reply::Reply;
use libghostty_vt::screen::{Cell, Row};
use libghostty_vt::style::{RawStyle, RawStyleColor, RgbColor, StyleColor};
use libghostty_vt::terminal::{Options, Terminal};

const BLACK: RgbColor = RgbColor { r: 0, g: 0, b: 0 };
const GREEN: RgbColor = RgbColor { r: 0, g: 255, b: 0 };

fn made(raw: usize) -> impl FnOnce(usize) -> NewReply {
    move |_| NewReply { code: 0, raw }
}

fn terminal() -> Terminal {
    let opts = Options { cols: 80, rows: 24, max_scrollback: 0 };
    Terminal::new(opts, |_, _| NewReply { code: 0, raw: 1 }).unwrap()
}

fn state() -> RenderState {
    RenderState::new(made(2)).unwrap()
}

fn ok<T>(tag: RenderStateData, value: T) -> impl FnOnce(usize, RenderStateData) -> Reply<T> {
    move |raw, asked| {
        assert_eq!((raw, asked), (2, tag));
        Reply { code: 0, value }
    }
}

#[test]
fn a_snapshot_needs_an_update() {
    let mut state = state();
    let res = state.update(&terminal(), |state, terminal| {
        assert_eq!((state, terminal), (2, 1));
        0
    });
    assert_eq!(res.unwrap().as_raw(), 2);
    assert_eq!(state.update(&terminal(), |_, _| -1).unwrap_err(), Error::OutOfMemory);
    let custom = RenderState::new_with_alloc(&Allocator::from_raw(6), |alloc| {
        assert_eq!(alloc, 6);
        NewReply { code: -1, raw: 0 }
    });
    assert_eq!(custom.unwrap_err(), Error::OutOfMemory);
}

#[test]
fn snapshots_are_asked_by_tag() {
    let mut state = state();
    let term = terminal();
    let snapshot = state.update(&term, |_, _| 0).unwrap();
    assert_eq!(snapshot.cols(ok(RenderStateData::Cols, 80)), Ok(80));
    assert_eq!(snapshot.rows(ok(RenderStateData::Rows, 24)), Ok(24));
    assert_eq!(snapshot.cursor_visible(ok(RenderStateData::CursorVisible, true)), Ok(true));
    assert_eq!(snapshot.cursor_blinking(ok(RenderStateData::CursorBlinking, false)), Ok(false));
    assert_eq!(
        snapshot.cursor_password_input(ok(RenderStateData::CursorPasswordInput, true)),
        Ok(true)
    );
    assert_eq!(snapshot.dirty(ok(RenderStateData::Dirty, 0)), Ok(Dirty::Clean));
    assert_eq!(snapshot.dirty(ok(RenderStateData::Dirty, 1)), Ok(Dirty::Partial));
    assert_eq!(snapshot.dirty(ok(RenderStateData::Dirty, 2)), Ok(Dirty::Full));
    assert_eq!(Dirty::from_code(3), Err(Error::InvalidValue));
    assert_eq!(CursorVisualStyle::from_code(4), Err(Error::InvalidValue));
    let style = |value| {
        snapshot.cursor_visual_style(ok(RenderStateData::CursorVisualStyle, value))
    };
    assert_eq!(style(0), Ok(CursorVisualStyle::Bar));
    assert_eq!(style(1), Ok(CursorVisualStyle::Block));
    assert_eq!(style(2), Ok(CursorVisualStyle::Underline));
    assert_eq!(style(3), Ok(CursorVisualStyle::BlockHollow));
}

#[test]
fn a_snapshot_is_set_clean() {
    let mut state = state();
    let term = terminal();
    let snapshot = state.update(&term, |_, _| 0).unwrap();
    let res = snapshot.set_dirty(Dirty::Full, &mut (), |_, raw, option, value| {
        assert_eq!((raw, option, value), (2, RenderStateOption::Dirty, 2));
        ((), 0)
    });
    assert_eq!(res, Ok(()));
    assert_eq!(
        snapshot.set_dirty(Dirty::Clean, &mut (), |_, _, _, _| ((), -2)),
        Err(Error::InvalidValue)
    );
}

#[test]
fn the_cursor_color_may_be_unset() {
    let mut state = state();
    let term = terminal();
    let snapshot = state.update(&term, |_, _| 0).unwrap();
    let flag = |value| ok(RenderStateData::ColorCursorHasValue, value);
    assert_eq!(
        snapshot.cursor_color(flag(true), ok(RenderStateData::ColorCursor, GREEN)),
        Ok(Some(GREEN))
    );
    assert_eq!(snapshot.cursor_color(flag(false), |_, _| unreachable!()), Ok(None));
    assert_eq!(
        snapshot.cursor_color(|_, _| Reply { code: -1, value: true }, |_, _| unreachable!()),
        Err(Error::OutOfMemory)
    );
}

#[test]
fn the_cursor_may_be_outside_the_viewport() {
    let mut state = state();
    let term = terminal();
    let snapshot = state.update(&term, |_, _| 0).unwrap();
    let flag = |has: bool| {
        move |_: usize, tag: RenderStateData| Reply {
            code: 0,
            value: match tag {
                RenderStateData::CursorViewportHasValue => has,
                RenderStateData::CursorViewportWideTail => true,
                other => panic!("{other:?}"),
            },
        }
    };
    let coord = |_: usize, tag: RenderStateData| Reply {
        code: 0,
        value: match tag {
            RenderStateData::CursorViewportX => 7,
            RenderStateData::CursorViewportY => 9,
            other => panic!("{other:?}"),
        },
    };
    assert_eq!(
        snapshot.cursor_viewport(flag(true), coord),
        Ok(Some(CursorViewport { x: 7, y: 9, at_wide_tail: true }))
    );
    assert_eq!(snapshot.cursor_viewport(flag(false), coord), Ok(None));
    let broken = |_: usize, _: RenderStateData| Reply { code: -2, value: 0 };
    assert_eq!(snapshot.cursor_viewport(flag(true), broken), Err(Error::InvalidValue));
}

#[test]
fn colors_come_with_an_optional_cursor() {
    let mut state = state();
    let term = terminal();
    let snapshot = state.update(&term, |_, _| 0).unwrap();
    let mut palette = [BLACK; 256];
    palette[2] = GREEN;
    let raw = RawColors {
        background: BLACK,
        foreground: GREEN,
        cursor: GREEN,
        cursor_has_value: true,
        palette,
    };
    let colors = snapshot.colors(|_| Reply { code: 0, value: raw }).unwrap();
    assert_eq!(colors.background, BLACK);
    assert_eq!(colors.foreground, GREEN);
    assert_eq!(colors.cursor, Some(GREEN));
    assert_eq!(colors.palette, palette);
    let unset = RawColors { cursor_has_value: false, ..raw };
    assert_eq!(snapshot.colors(|_| Reply { code: 0, value: unset }).unwrap().cursor, None);
    assert!(snapshot.colors(|_| Reply { code: -2, value: raw }).is_err());
}

#[test]
fn rows_and_cells_are_walked() {
    let mut state = state();
    let term = terminal();
    let snapshot = state.update(&term, |_, _| 0).unwrap();
    let mut rows = RowIterator::new(made(3)).unwrap();
    let mut cells = CellIterator::new(made(4)).unwrap();
    let mut row_it = rows
        .update(&snapshot, |state, iter| {
            assert_eq!((state, iter), (2, 3));
            0
        })
        .unwrap();
    assert!(row_it.next(|raw| raw == 3).is_some());
    assert_eq!(
        row_it.dirty(|raw, tag| {
            assert_eq!((raw, tag), (3, IterationRowData::Dirty));
            Reply { code: 0, value: true }
        }),
        Ok(true)
    );
    assert_eq!(
        row_it.raw_row(|_, tag| {
            assert_eq!(tag, IterationRowData::Raw);
            Reply { code: 0, value: 55 }
        }),
        Ok(Row(55))
    );
    let mut cell_it = cells
        .update(&row_it, |row, iter| {
            assert_eq!((row, iter), (3, 4));
            0
        })
        .unwrap();
    assert!(cell_it.next(|raw| raw == 4).is_some());
    assert_eq!(
        cell_it.raw_cell(|_, tag| {
            assert_eq!(tag, IterationCellData::Raw);
            Reply { code: 0, value: 66 }
        }),
        Ok(Cell(66))
    );
    assert_eq!(
        cell_it.select(5, |raw, x| {
            assert_eq!((raw, x), (4, 5));
            -2
        }),
        Err(Error::InvalidValue)
    );
    assert!(cell_it.next(|_| false).is_none());
    assert_eq!(
        row_it.set_dirty(false, &mut (), |_, raw, option, value| {
            assert_eq!((raw, option, value), (3, IterationRowOption::Dirty, false));
            ((), 0)
        }),
        Ok(())
    );
    assert!(row_it.next(|_| false).is_none());
}

#[test]
fn iterators_that_cannot_start_are_errors() {
    let mut state = state();
    let term = terminal();
    let snapshot = state.update(&term, |_, _| 0).unwrap();
    let mut rows = RowIterator::new(made(3)).unwrap();
    assert_eq!(rows.update(&snapshot, |_, _| -2).unwrap_err(), Error::InvalidValue);
    let mut cells = CellIterator::new(made(4)).unwrap();
    let row_it = rows.update(&snapshot, |_, _| 0).unwrap();
    assert_eq!(cells.update(&row_it, |_, _| -1).unwrap_err(), Error::OutOfMemory);
}

#[test]
fn graphemes_are_the_codepoints_of_a_cell() {
    let mut state = state();
    let term = terminal();
    let snapshot = state.update(&term, |_, _| 0).unwrap();
    let mut rows = RowIterator::new(made(3)).unwrap();
    let row_it = rows.update(&snapshot, |_, _| 0).unwrap();
    let mut cells = CellIterator::new(made(4)).unwrap();
    let cell = cells.update(&row_it, |_, _| 0).unwrap();
    let len = |n| {
        move |_: usize, tag: IterationCellData| {
            assert_eq!(tag, IterationCellData::GraphemesLen);
            Reply { code: 0, value: n }
        }
    };
    assert_eq!(cell.graphemes_len(len(2)), Ok(2));
    let chars = cell.graphemes(len(2), |raw, n| {
        assert_eq!((raw, n), (4, 2));
        Reply { code: 0, value: vec![0x65, 0x301] }
    });
    assert_eq!(chars, Ok(vec!['e', '\u{301}']));
    assert_eq!(cell.graphemes(len(0), |_, _| Reply { code: 0, value: vec![] }), Ok(vec![]));
    assert_eq!(
        cell.graphemes(|_, _| Reply { code: -2, value: 1 }, |_, _| unreachable!()),
        Err(Error::InvalidValue)
    );
    assert_eq!(
        cell.graphemes(len(1), |_, _| Reply { code: -1, value: vec![] }),
        Err(Error::OutOfMemory)
    );
}

#[test]
fn cell_styles_are_decoded() {
    let mut state = state();
    let term = terminal();
    let snapshot = state.update(&term, |_, _| 0).unwrap();
    let mut rows = RowIterator::new(made(3)).unwrap();
    let row_it = rows.update(&snapshot, |_, _| 0).unwrap();
    let mut cells = CellIterator::new(made(4)).unwrap();
    let cell = cells.update(&row_it, |_, _| 0).unwrap();
    let color = RawStyleColor { tag: 0, palette: 0, rgb: BLACK };
    let raw = RawStyle {
        fg_color: RawStyleColor { tag: 2, palette: 0, rgb: GREEN },
        bg_color: color,
        underline_color: color,
        bold: true,
        italic: false,
        faint: false,
        blink: false,
        inverse: true,
        invisible: false,
        strikethrough: false,
        overline: false,
        underline: 0,
    };
    let style = cell.style(|_, tag| {
        assert_eq!(tag, IterationCellData::Style);
        Reply { code: 0, value: raw }
    });
    let style = style.unwrap();
    assert!(style.bold && style.inverse && !style.italic);
    assert_eq!(style.fg_color, StyleColor::Rgb(GREEN));
    assert_eq!(style.bg_color, StyleColor::NoColor);
}

/// Dirty flags outside of the library: the global one, those of the rows, and the row that the
/// iterator is at.
#[derive(Clone, Debug, PartialEq)]
struct Flags {
    global: u32,
    rows: Vec<bool>,
    at: usize,
}

#[test]
fn dirty_flags_are_kept_apart() {
    let mut state = state();
    let term = terminal();
    let snapshot = state.update(&term, |_, _| 0).unwrap();
    let mut iter = RowIterator::new(|_| NewReply { code: 0, raw: 3 }).unwrap();
    let row = iter.update(&snapshot, |_, _| 0).unwrap();
    let mut engine = Flags { global: 2, rows: vec![true, false, true], at: 0 };
    let set_global = |flags: &Flags, _: usize, _: RenderStateOption, global: u32| {
        (Flags { global, ..flags.clone() }, 0)
    };
    for dirty in [Dirty::Clean, Dirty::Partial, Dirty::Full, Dirty::Clean] {
        assert_eq!(snapshot.set_dirty(dirty, &mut engine, set_global), Ok(()));
        assert_eq!(
            snapshot.dirty(|_, _| Reply { code: 0, value: engine.global }),
            Ok(dirty)
        );
        for (at, expected) in [true, false, true].into_iter().enumerate() {
            engine.at = at;
            let res = row.dirty(|_, _| Reply { code: 0, value: engine.rows[engine.at] });
            assert_eq!(res, Ok(expected));
        }
    }
    let set_row = |flags: &Flags, _: usize, _: IterationRowOption, dirty: bool| {
        let mut flags = flags.clone();
        flags.rows[flags.at] = dirty;
        (flags, 0)
    };
    engine.at = 1;
    assert_eq!(row.set_dirty(true, &mut engine, set_row), Ok(()));
    engine.at = 2;
    assert_eq!(row.set_dirty(false, &mut engine, set_row), Ok(()));
    assert_eq!(engine, Flags { global: 0, rows: vec![true, true, false], at: 2 });
}
