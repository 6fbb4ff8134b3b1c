use libghostty_vt::error::Error;
use libghostty_vt::key::KittyKeyFlags;
use libghostty_vt::memory::{Allocator, NewReply};
use libghostty_vt::reply::Reply;
use libghostty_vt::screen::GridRef;
use libghostty_vt::style::{RawStyle, RawStyleColor, RgbColor, StyleColor, Underline};
use libghostty_vt::terminal::{
    color_scheme_answer, text_or_empty, ColorScheme, ConformanceLevel, DeviceAttributeFeature,
    Mode, ModeKind, Options, Point, PointCoordinate, PrimaryDeviceAttributes, RawPoint,
    RawScrollViewport, ScrollViewport, Scrollbar, Terminal, TerminalData, TerminalOption,
};
use std::cell::Cell;

const OPTS: Options = Options { cols: 80, rows: 24, max_scrollback: 1000 };
const BLUE: RgbColor = RgbColor { r: 0, g: 0, b: 255 };

fn terminal() -> Terminal<u8> {
    Terminal::new(OPTS, |_, _| NewReply { code: 0, raw: 0xab }).unwrap()
}

fn answer<T>(tag: TerminalData, value: T) -> impl FnOnce(usize, TerminalData) -> Reply<T> {
    move |raw, asked| {
        assert_eq!((raw, asked), (0xab, tag));
        Reply { code: 0, value }
    }
}

fn failure<T>(code: i32, value: T) -> impl FnOnce(usize, TerminalData) -> Reply<T> {
    move |_, _| Reply { code, value }
}

#[test]
fn terminals_are_created_with_options() {
    let made: Result<Terminal, Error> = Terminal::new_with_alloc(
        &Allocator::from_raw(5),
        OPTS,
        |alloc, opts| {
            assert_eq!((alloc, opts), (5, OPTS));
            NewReply { code: 0, raw: 9 }
        },
    );
    assert_eq!(made.unwrap().as_raw(), 9);
    let none: Result<Terminal, Error> = Terminal::new(OPTS, |alloc, _| {
        assert_eq!(alloc, 0);
        NewReply { code: -2, raw: 9 }
    });
    assert_eq!(none.unwrap_err(), Error::InvalidValue);
}

#[test]
fn terminal_commands_reach_the_engine() {
    let mut term = terminal();
    let seen = Cell::new(0);
    term.vt_write(b"hi", |raw, data| {
        assert_eq!((raw, data), (0xab, b"hi".as_slice()));
        seen.set(seen.get() + 1);
    });
    term.reset(&mut (), |_, raw| {
        assert_eq!(raw, 0xab);
        seen.set(seen.get() + 1);
    });
    let res = term.resize(100, 40, 8, 16, |raw, cols, rows, w, h| {
        assert_eq!((raw, cols, rows, w, h), (0xab, 100, 40, 8, 16));
        seen.set(seen.get() + 1);
        0
    });
    assert_eq!(res, Ok(()));
    assert_eq!(term.resize(0, 0, 0, 0, |_, _, _, _, _| -2), Err(Error::InvalidValue));
    term.scroll_viewport(ScrollViewport::Delta(-3), |raw, request| {
        assert_eq!((raw, request), (0xab, RawScrollViewport { tag: 2, delta: -3 }));
        seen.set(seen.get() + 1);
    });
    assert_eq!(seen.get(), 4);
}

#[test]
fn scroll_requests_have_tags() {
    assert_eq!(ScrollViewport::Top.to_raw(), RawScrollViewport { tag: 0, delta: 0 });
    assert_eq!(ScrollViewport::Bottom.to_raw(), RawScrollViewport { tag: 1, delta: 0 });
    assert_ne!(ScrollViewport::Delta(0).to_raw(), ScrollViewport::Top.to_raw());
}

#[test]
fn points_have_tags() {
    let at = PointCoordinate { x: 3, y: 70000 };
    assert_eq!(Point::Active(at).to_raw(), RawPoint { tag: 0, coordinate: at });
    assert_eq!(Point::Viewport(at).to_raw(), RawPoint { tag: 1, coordinate: at });
    assert_eq!(Point::Screen(at).to_raw(), RawPoint { tag: 2, coordinate: at });
    assert_eq!(Point::History(at).to_raw(), RawPoint { tag: 3, coordinate: at });
}

#[test]
fn points_resolve_to_grid_references() {
    let at = PointCoordinate { x: 3, y: 4 };
    let found = GridRef { node: 77, x: 3, y: 4 };
    let res = terminal().grid_ref(Point::Screen(at), |raw, point| {
        assert_eq!((raw, point.tag), (0xab, 2));
        Reply { code: 0, value: found }
    });
    assert_eq!(res, Ok(found));
    let res = terminal().grid_ref(Point::History(at), |_, _| Reply { code: -2, value: found });
    assert_eq!(res, Err(Error::InvalidValue));
}

#[test]
fn terminal_state_is_read_by_tag() {
    let term = terminal();
    assert_eq!(term.cols(answer(TerminalData::Cols, 80)), Ok(80));
    assert_eq!(term.rows(answer(TerminalData::Rows, 24)), Ok(24));
    assert_eq!(term.cursor_x(answer(TerminalData::CursorX, 1)), Ok(1));
    assert_eq!(term.cursor_y(answer(TerminalData::CursorY, 2)), Ok(2));
    assert_eq!(
        term.is_cursor_pending_wrap(answer(TerminalData::CursorPendingWrap, true)),
        Ok(true)
    );
    assert_eq!(term.is_cursor_visible(answer(TerminalData::CursorVisible, false)), Ok(false));
    assert_eq!(
        term.kitty_keyboard_flags(answer(TerminalData::KittyKeyboardFlags, 3)),
        Ok(KittyKeyFlags::from_bits_retain(3))
    );
    let bar = Scrollbar { total: 9, offset: 4, len: 3 };
    assert_eq!(term.scrollbar(answer(TerminalData::Scrollbar, bar)), Ok(bar));
    assert_eq!(term.active_screen(answer(TerminalData::ActiveScreen, 1)), Ok(1));
    assert_eq!(term.is_mouse_tracking(answer(TerminalData::MouseTracking, true)), Ok(true));
    assert_eq!(term.total_rows(answer(TerminalData::TotalRows, 1024)), Ok(1024));
    assert_eq!(term.scrollback_rows(answer(TerminalData::ScrollbackRows, 1000)), Ok(1000));
    assert_eq!(term.rows(failure(-1, 24)), Err(Error::OutOfMemory));
}

#[test]
fn titles_and_directories_are_utf8() {
    let term = terminal();
    let title = "grüße".to_string();
    assert_eq!(term.title(answer(TerminalData::Title, title.clone().into_bytes())), Ok(title));
    assert_eq!(term.title(answer(TerminalData::Title, Vec::new())), Ok(String::new()));
    assert_eq!(
        term.title(answer(TerminalData::Title, vec![b'a', 0xff])),
        Err(Error::InvalidValue)
    );
    assert_eq!(
        term.pwd(answer(TerminalData::Pwd, b"/home".to_vec())),
        Ok("/home".to_string())
    );
    assert_eq!(term.pwd(answer(TerminalData::Pwd, vec![0xc3])), Err(Error::InvalidValue));
    assert_eq!(term.pwd(failure(-1, Vec::new())), Err(Error::OutOfMemory));
}

#[test]
fn the_cursor_style_is_decoded() {
    let color = RawStyleColor { tag: 2, palette: 0, rgb: BLUE };
    let raw = RawStyle {
        fg_color: color,
        bg_color: color,
        underline_color: color,
        bold: false,
        italic: true,
        faint: false,
        blink: false,
        inverse: false,
        invisible: false,
        strikethrough: false,
        overline: false,
        underline: 1,
    };
    let style = terminal().cursor_style(answer(TerminalData::CursorStyle, raw)).unwrap();
    assert_eq!(style.fg_color, StyleColor::Rgb(BLUE));
    assert!(style.italic);
    assert_eq!(style.underline, Underline::Single);
    let broken = RawStyle { underline: 17, ..raw };
    assert_eq!(
        terminal().cursor_style(answer(TerminalData::CursorStyle, broken)),
        Err(Error::InvalidValue)
    );
}

#[test]
fn unset_colors_are_absent() {
    let term = terminal();
    assert_eq!(term.fg_color(answer(TerminalData::ColorForeground, BLUE)), Ok(Some(BLUE)));
    assert_eq!(term.fg_color(failure(-4, BLUE)), Ok(None));
    assert_eq!(term.bg_color(answer(TerminalData::ColorBackground, BLUE)), Ok(Some(BLUE)));
    assert_eq!(term.cursor_color(answer(TerminalData::ColorCursor, BLUE)), Ok(Some(BLUE)));
    assert_eq!(
        term.default_fg_color(answer(TerminalData::ColorForegroundDefault, BLUE)),
        Ok(Some(BLUE))
    );
    assert_eq!(
        term.default_bg_color(answer(TerminalData::ColorBackgroundDefault, BLUE)),
        Ok(Some(BLUE))
    );
    assert_eq!(
        term.default_cursor_color(answer(TerminalData::ColorCursorDefault, BLUE)),
        Ok(Some(BLUE))
    );
    assert_eq!(term.default_bg_color(failure(-4, BLUE)), Ok(None));
    assert_eq!(term.cursor_color(failure(-2, BLUE)), Err(Error::InvalidValue));
}

#[test]
fn default_colors_are_set_and_cleared() {
    let term = terminal();
    let res = term.set_default_fg_color(Some(BLUE), |raw, option, value| {
        assert_eq!((raw, option, value), (0xab, TerminalOption::ColorForeground, Some(BLUE)));
        0
    });
    assert_eq!(res, Ok(()));
    let res = term.set_default_bg_color(None, |_, option, value| {
        assert_eq!((option, value), (TerminalOption::ColorBackground, None));
        0
    });
    assert_eq!(res, Ok(()));
    let res = term.set_default_cursor_color(None, |_, option, _| {
        assert_eq!(option, TerminalOption::ColorCursor);
        -1
    });
    assert_eq!(res, Err(Error::OutOfMemory));
}

#[test]
fn palettes_are_read_and_set() {
    let term = terminal();
    let mut palette = [RgbColor { r: 0, g: 0, b: 0 }; 256];
    palette[12] = BLUE;
    assert_eq!(term.color_palette(answer(TerminalData::ColorPalette, palette)), Ok(palette));
    assert_eq!(
        term.default_color_palette(answer(TerminalData::ColorPaletteDefault, palette)),
        Ok(palette)
    );
    let res = term.set_default_color_palette(Some(palette), |_, option, value| {
        assert_eq!(option, TerminalOption::ColorPalette);
        assert_eq!(value.unwrap()[12], BLUE);
        0
    });
    assert_eq!(res, Ok(()));
}

#[test]
fn modes_keep_value_and_kind() {
    let insert = Mode::new(4, ModeKind::Ansi);
    assert_eq!(insert, Mode(Mode::INSERT));
    assert_eq!(insert.value(), 4);
    assert_eq!(insert.kind(), ModeKind::Ansi);
    let slow = Mode::new(4, ModeKind::Dec);
    assert_eq!(slow, Mode(Mode::SLOW_SCROLL));
    assert_eq!(slow.value(), 4);
    assert_eq!(slow.kind(), ModeKind::Dec);
    assert_eq!(Mode(Mode::SYNC_OUTPUT).value(), 2026);
    for raw in [Mode::KAM, Mode::SRM, Mode::LINEFEED] {
        assert_eq!(Mode(raw).kind(), ModeKind::Ansi);
        let mode = Mode(raw);
        assert_eq!(Mode::new(mode.value(), mode.kind()), mode);
    }
}

#[test]
fn only_fifteen_bits_of_a_mode_are_its_value() {
    let mode = Mode::new(0xffff, ModeKind::Dec);
    assert_eq!(mode.value(), 0x7fff);
    assert_eq!(mode.kind(), ModeKind::Ansi);
}

#[test]
fn modes_are_read_and_set() {
    let mut term = terminal();
    let res = term.mode(Mode(Mode::BRACKETED_PASTE), |raw, mode| {
        assert_eq!((raw, mode), (0xab, 2004));
        Reply { code: 0, value: true }
    });
    assert_eq!(res, Ok(true));
    let res = term.set_mode(Mode(Mode::INSERT), true, |_, mode, value| {
        assert_eq!((mode, value), (0x8004, true));
        -2
    });
    assert_eq!(res, Err(Error::InvalidValue));
}

#[test]
fn device_attributes_hold_their_features_in_front() {
    let attributes = PrimaryDeviceAttributes::new(
        ConformanceLevel(ConformanceLevel::VT420),
        [
            DeviceAttributeFeature(DeviceAttributeFeature::SIXEL),
            DeviceAttributeFeature(DeviceAttributeFeature::CLIPBOARD),
        ],
    );
    assert_eq!(attributes.conformance_level, 64);
    assert_eq!(attributes.num_features, 2);
    assert_eq!(&attributes.features[..3], &[4, 52, 0]);
    assert!(attributes.features[2..].iter().all(|&f| f == 0));
    let none = PrimaryDeviceAttributes::new(ConformanceLevel(ConformanceLevel::VT100), []);
    assert_eq!(none.num_features, 0);
    let many = [DeviceAttributeFeature(7); 64];
    let full = PrimaryDeviceAttributes::new(ConformanceLevel(1), many);
    assert_eq!(full.num_features, 64);
    assert!(full.features.iter().all(|&f| f == 7));
}

#[test]
fn handlers_are_kept_and_announced() {
    let mut term = terminal();
    let set = |mut asked: Vec<TerminalOption>, raw: usize, option: TerminalOption| {
        assert_eq!(raw, 0xab);
        asked.push(option);
        (asked, 0)
    };
    let expect = |option: TerminalOption| (vec![TerminalOption::Userdata, option], Ok(()));
    assert_eq!(term.on_pty_write(1, vec![], set), expect(TerminalOption::WritePty));
    assert_eq!(term.on_bell(2, vec![], set), expect(TerminalOption::Bell));
    assert_eq!(term.on_enquiry(3, vec![], set), expect(TerminalOption::Enquiry));
    assert_eq!(term.on_xtversion(4, vec![], set), expect(TerminalOption::Xtversion));
    assert_eq!(term.on_title_changed(5, vec![], set), expect(TerminalOption::TitleChanged));
    assert_eq!(term.on_size(6, vec![], set), expect(TerminalOption::Size));
    assert_eq!(term.on_color_scheme(7, vec![], set), expect(TerminalOption::ColorScheme));
    assert_eq!(
        term.on_device_attributes(8, vec![], set),
        expect(TerminalOption::DeviceAttributes)
    );
    let handlers = term.handlers_mut();
    assert_eq!(handlers.pty_write, Some(1));
    assert_eq!(handlers.bell, Some(2));
    assert_eq!(handlers.enquiry, Some(3));
    assert_eq!(handlers.xtversion, Some(4));
    assert_eq!(handlers.title_changed, Some(5));
    assert_eq!(handlers.size, Some(6));
    assert_eq!(handlers.color_scheme, Some(7));
    assert_eq!(handlers.device_attributes, Some(8));
}

#[test]
fn a_handler_that_cannot_be_announced_is_an_error() {
    let mut term = terminal();
    let refusing = |refused: TerminalOption, code: i32| {
        move |mut asked: Vec<TerminalOption>, _: usize, option: TerminalOption| {
            asked.push(option);
            (asked, if option == refused { code } else { 0 })
        }
    };
    // An engine that did not take the handlers is asked for nothing more.
    assert_eq!(
        term.on_bell(2, vec![], refusing(TerminalOption::Userdata, -2)),
        (vec![TerminalOption::Userdata], Err(Error::InvalidValue))
    );
    assert_eq!(
        term.on_bell(2, vec![], refusing(TerminalOption::Bell, -1)),
        (vec![TerminalOption::Userdata, TerminalOption::Bell], Err(Error::OutOfMemory))
    );
}

#[test]
fn answers_of_handlers_are_passed_on() {
    assert_eq!(text_or_empty(Some("ghost".to_string())), "ghost");
    assert_eq!(text_or_empty(None), "");
    assert_eq!(color_scheme_answer(Some(ColorScheme::Light)), Some(0));
    assert_eq!(color_scheme_answer(Some(ColorScheme::Dark)), Some(1));
    assert_eq!(color_scheme_answer(None), None);
    assert_eq!(ColorScheme::from_code(1), Ok(ColorScheme::Dark));
    assert_eq!(ColorScheme::from_code(2), Err(Error::InvalidValue));
}

/// A terminal outside of the library: its size, its scrollback, the modes that are set, and the
/// codepoints of its cells.
#[derive(Clone, Debug, PartialEq)]
struct Screen {
    cols: u16,
    rows: u16,
    scrollback: usize,
    modes: Vec<u16>,
    cells: Vec<u64>,
}

impl Screen {
    fn new(cols: u16, rows: u16) -> Self {
        let cells = vec![0; usize::from(cols) * usize::from(rows)];
        Self { cols, rows, scrollback: 0, modes: vec![7], cells }
    }
}

#[test]
fn a_reset_terminal_is_as_a_new_one() {
    let mut term = terminal();
    let mut engine = Screen {
        scrollback: 5,
        modes: vec![1000, 2004],
        cells: vec![0x61; 12],
        ..Screen::new(4, 3)
    };
    let reset = |screen: &Screen, _: usize| Screen::new(screen.cols, screen.rows);
    for _ in 0..2 {
        term.reset(&mut engine, reset);
        assert_eq!(engine, Screen::new(4, 3));
        assert_eq!(term.cols(|_, _| Reply { code: 0, value: engine.cols }), Ok(4));
        assert_eq!(term.rows(|_, _| Reply { code: 0, value: engine.rows }), Ok(3));
        let scrollback = term.scrollback_rows(|_, _| Reply { code: 0, value: engine.scrollback });
        assert_eq!(scrollback, Ok(0));
        for mode in [7, 1000, 2004] {
            let ask = |_: usize, mode: u16| Reply { code: 0, value: engine.modes.contains(&mode) };
            assert_eq!(term.mode(Mode(mode), ask), Ok(mode == 7));
        }
        for (x, y) in [(0, 0), (3, 0), (2, 2)] {
            let grid = term
                .grid_ref(Point::Active(PointCoordinate { x, y }), |_, point| {
                    let PointCoordinate { x, y } = point.coordinate;
                    Reply { code: 0, value: GridRef { node: 1, x, y: y as u16 } }
                })
                .unwrap();
            let cell = grid.cell(|grid| {
                let at = usize::from(grid.y * engine.cols + grid.x);
                Reply { code: 0, value: engine.cells[at] }
            });
            assert_eq!(cell.map(|cell| cell.0), Ok(0));
        }
    }
}
