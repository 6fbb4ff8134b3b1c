use libghostty_vt::error::Error;
use libghostty_vt::ghostling::frame::{
    draw_text_cell, Action, Answer, CellDrawing, CellStyle, Frame, FrameColors,
};
use libghostty_vt::kitty::graphics::Layer;
use libghostty_vt::render::CursorViewport;
use libghostty_vt::style::RgbColor;

const fn gray(v: u8) -> RgbColor {
    RgbColor { r: v, g: v, b: v }
}

const COLORS: FrameColors =
    FrameColors { background: gray(1), foreground: gray(2), cursor: Some(gray(3)) };
const PLAIN: CellStyle = CellStyle { inverse: false, bold: false };
const INVERSE: CellStyle = CellStyle { inverse: true, bold: false };

/// A screen of one cell.
struct Screen {
    graphics: bool,
    rows: u32,
    text: bool,
    cursor: Option<CursorViewport>,
}

/// Draw the screen and return the actions in order.
fn draw(mut screen: Screen) -> Vec<Action> {
    let mut frame = Frame::new();
    let mut actions = Vec::new();
    let mut cells = 0;
    loop {
        actions.push(frame.action);
        let answer = match frame.action {
            Action::ReadColors => Answer::Colors(COLORS),
            Action::OpenGraphics => Answer::Flag(screen.graphics),
            Action::NextRow => {
                cells = 1;
                screen.rows = screen.rows.wrapping_sub(1);
                Answer::Flag(screen.rows != u32::MAX)
            }
            Action::NextCell => {
                cells -= 1;
                Answer::Flag(cells == 0)
            }
            Action::ReadLen => Answer::Len(u32::from(screen.text)),
            Action::ReadBg => Answer::Color(Some(gray(9))),
            Action::ReadFg => Answer::Color(None),
            Action::ReadStyle => Answer::Style(CellStyle { inverse: false, bold: true }),
            Action::ReadCursorVisible => Answer::Flag(screen.cursor.is_some()),
            Action::ReadCursorViewport => Answer::Viewport(screen.cursor),
            Action::Finished | Action::Failed(_) => return actions,
            _ => Answer::Done,
        };
        frame.step(answer);
    }
}

#[test]
fn an_empty_screen_is_cleared() {
    let actions = draw(Screen { graphics: false, rows: 0, text: false, cursor: None });
    assert_eq!(
        actions,
        [
            Action::Update,
            Action::ReadColors,
            Action::Clear(gray(1)),
            Action::OpenGraphics,
            Action::UpdateRows,
            Action::NextRow,
            Action::ReadCursorVisible,
            Action::SetClean,
            Action::Finished,
        ]
    );
}

#[test]
fn cells_are_drawn_row_by_row() {
    let actions = draw(Screen { graphics: false, rows: 1, text: true, cursor: None });
    assert_eq!(
        &actions[5..17],
        &[
            Action::NextRow,
            Action::UpdateCells,
            Action::NextCell,
            Action::ReadLen,
            Action::ReadBg,
            Action::ReadText,
            Action::ReadFg,
            Action::ReadStyle,
            Action::DrawCell(CellDrawing {
                rect: Some(gray(9)),
                text: Some(gray(2)),
                twice: true,
            }),
            Action::NextCell,
            Action::ClearRowDirty,
            Action::NextRow,
        ]
    );
}

#[test]
fn a_cell_without_text_is_a_rectangle() {
    let actions = draw(Screen { graphics: false, rows: 1, text: false, cursor: None });
    assert!(actions.contains(&Action::DrawCell(CellDrawing {
        rect: Some(gray(9)),
        text: None,
        twice: false,
    })));
    assert!(!actions.contains(&Action::ReadText));
}

#[test]
fn every_layer_is_drawn_from_the_bottom_up() {
    let at = CursorViewport { x: 2, y: 3, at_wide_tail: false };
    let actions = draw(Screen { graphics: true, rows: 2, text: true, cursor: Some(at) });
    let kept: Vec<_> = actions
        .into_iter()
        .filter(|action| {
            matches!(
                action,
                Action::DrawImages(_)
                    | Action::ClearRowDirty
                    | Action::DrawCursor(_, _)
                    | Action::SetClean
                    | Action::Finished
            )
        })
        .collect();
    assert_eq!(
        kept,
        [
            Action::DrawImages(Layer::BelowBg),
            Action::ClearRowDirty,
            Action::ClearRowDirty,
            Action::DrawImages(Layer::BelowText),
            Action::DrawCursor(at, gray(3)),
            Action::DrawImages(Layer::AboveText),
            Action::SetClean,
            Action::Finished,
        ]
    );
}

#[test]
fn rows_and_columns_are_counted() {
    let mut frame = Frame::new();
    let mut positions = Vec::new();
    let mut flags = vec![true, true, true, false, true, true, false, false].into_iter();
    loop {
        let answer = match frame.action {
            Action::ReadColors => Answer::Colors(COLORS),
            Action::OpenGraphics => Answer::Flag(false),
            Action::NextRow | Action::NextCell => Answer::Flag(flags.next().unwrap()),
            Action::ReadLen => Answer::Len(0),
            Action::ReadBg => Answer::Color(None),
            Action::ReadCursorVisible => Answer::Flag(false),
            Action::DrawCell(_) => {
                positions.push((frame.row, frame.col));
                Answer::Done
            }
            Action::Finished => break,
            _ => Answer::Done,
        };
        frame.step(answer);
    }
    assert_eq!(positions, [(0, 0), (0, 1), (1, 0)]);
    assert_eq!(frame.row, 2);
}

#[test]
fn the_cursor_takes_the_foreground_color_without_one_of_its_own() {
    let at = CursorViewport { x: 0, y: 0, at_wide_tail: false };
    let mut frame = Frame::new();
    frame.colors = FrameColors { cursor: None, ..COLORS };
    frame.action = Action::ReadCursorViewport;
    frame.step(Answer::Viewport(Some(at)));
    assert_eq!(frame.action, Action::DrawCursor(at, gray(2)));
    frame.action = Action::ReadCursorViewport;
    frame.step(Answer::Viewport(None));
    assert_eq!(frame.action, Action::SetClean);
}

#[test]
fn an_error_ends_a_frame() {
    let mut frame = Frame::new();
    frame.step(Answer::Failed(Error::OutOfMemory));
    assert_eq!(frame.action, Action::Failed(Error::OutOfMemory));
    let mut frame = Frame::new();
    frame.step(Answer::Done);
    frame.step(Answer::Failed(Error::InvalidValue));
    assert_eq!(frame.action, Action::Failed(Error::InvalidValue));
}

#[test]
fn inverse_cells_swap_their_colors() {
    assert_eq!(
        draw_text_cell(COLORS, None, None, PLAIN),
        CellDrawing { rect: None, text: Some(gray(2)), twice: false }
    );
    assert_eq!(
        draw_text_cell(COLORS, None, None, INVERSE),
        CellDrawing { rect: Some(gray(2)), text: Some(gray(1)), twice: false }
    );
    assert_eq!(
        draw_text_cell(COLORS, Some(gray(7)), Some(gray(8)), PLAIN),
        CellDrawing { rect: Some(gray(7)), text: Some(gray(8)), twice: false }
    );
    assert_eq!(
        draw_text_cell(COLORS, Some(gray(7)), Some(gray(8)), CellStyle { inverse: true, bold: true }),
        CellDrawing { rect: Some(gray(8)), text: Some(gray(7)), twice: true }
    );
}
