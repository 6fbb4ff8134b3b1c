//! Drawing one frame of a terminal.
//!
//! Reading the render state and drawing to the window are the driver's work. [`Frame`] decides what
//! to do next: it says which [`Action`] to perform, takes the [`Answer`] that came of it, and says
//! the next one, until the frame is finished or something failed.
use crate::error::Error;
use crate::kitty::graphics::Layer;
use crate::render::CursorViewport;
use crate::style::RgbColor;
use vstd::prelude::*;

verus! {

/// The colors that a frame is drawn with.
#[derive(Clone, Copy, Debug, PartialEq, Eq, Structural)]
pub struct FrameColors {
    /// The default background color.
    pub background: RgbColor,
    /// The default foreground color.
    pub foreground: RgbColor,
    /// The cursor color, if the terminal set one.
    pub cursor: Option<RgbColor>,
}

/// What counts of a cell's style.
#[derive(Clone, Copy, Debug, PartialEq, Eq, Structural)]
pub struct CellStyle {
    /// Foreground and background are swapped.
    pub inverse: bool,
    /// The text is bold.
    pub bold: bool,
}

/// How to draw a cell.
#[derive(Clone, Copy, Debug, PartialEq, Eq, Structural)]
pub struct CellDrawing {
    /// The color of the rectangle behind the cell, if one is drawn.
    pub rect: Option<RgbColor>,
    /// The color of the text, if there is text.
    pub text: Option<RgbColor>,
    /// The text is drawn a second time, shifted by a pixel, to thicken the strokes.
    pub twice: bool,
}

/// How to draw a cell without text: only its background color, if it has one.
pub open spec fn empty_cell(bg: Option<RgbColor>) -> CellDrawing {
    CellDrawing { rect: bg, text: None, twice: false }
}

/// How to draw a cell with text, given its own background and foreground colors and its style.
///
/// Where the cell has no color of its own, the default one takes its place. Inverse swaps the two
/// and always draws the background.
pub open spec fn text_cell(
    colors: FrameColors,
    bg: Option<RgbColor>,
    fg: Option<RgbColor>,
    style: CellStyle,
) -> CellDrawing {
    let back = match bg {
        Some(color) => color,
        None => colors.background,
    };
    let front = match fg {
        Some(color) => color,
        None => colors.foreground,
    };
    CellDrawing {
        rect: if style.inverse {
            Some(front)
        } else {
            bg
        },
        text: Some(
            if style.inverse {
                back
            } else {
                front
            },
        ),
        twice: style.bold,
    }
}

/// How to draw a cell with text.
pub fn draw_text_cell(
    colors: FrameColors,
    bg: Option<RgbColor>,
    fg: Option<RgbColor>,
    style: CellStyle,
) -> (res: CellDrawing)
    ensures
        res == text_cell(colors, bg, fg, style),
{
    let mut front = match fg {
        Some(color) => color,
        None => colors.foreground,
    };
    let mut has_bg = bg.is_some();
    let mut back = match bg {
        Some(color) => color,
        None => colors.background,
    };
    if style.inverse {
        let swapped = front;
        front = back;
        back = swapped;
        has_bg = true;
    }
    CellDrawing {
        rect: if has_bg {
            Some(back)
        } else {
            None
        },
        text: Some(front),
        twice: style.bold,
    }
}

/// What the driver has to do.
#[derive(Clone, Copy, Debug, PartialEq, Eq, Structural)]
pub enum Action {
    /// Update the render state from the terminal.
    Update,
    /// Read the colors of the render state.
    ReadColors,
    /// Fill the window with a color.
    Clear(RgbColor),
    /// Open the Kitty graphics storage of the terminal.
    OpenGraphics,
    /// Start over at the rows.
    UpdateRows,
    /// Draw the images of a layer.
    DrawImages(Layer),
    /// Advance to the next row.
    NextRow,
    /// Start over at the cells of the row.
    UpdateCells,
    /// Advance to the next cell.
    NextCell,
    /// Read how many codepoints the cell has.
    ReadLen,
    /// Read the background color of the cell.
    ReadBg,
    /// Read the text of the cell.
    ReadText,
    /// Read the foreground color of the cell.
    ReadFg,
    /// Read the style of the cell.
    ReadStyle,
    /// Draw the cell.
    DrawCell(CellDrawing),
    /// Set the row to not dirty.
    ClearRowDirty,
    /// Read whether the cursor is visible.
    ReadCursorVisible,
    /// Read where the cursor is in the viewport.
    ReadCursorViewport,
    /// Draw the cursor at a cell.
    DrawCursor(CursorViewport, RgbColor),
    /// Set the render state to clean.
    SetClean,
    /// Nothing: the frame is finished.
    Finished,
    /// Nothing: the frame failed.
    Failed(Error),
}

/// What came of an action.
#[derive(Clone, Copy, Debug, PartialEq, Eq, Structural)]
pub enum Answer {
    /// It was done.
    Done,
    /// It failed.
    Failed(Error),
    /// Yes or no: whether there is a next row or cell, whether there is a graphics storage, whether
    /// the cursor is visible.
    Flag(bool),
    /// The colors of the render state.
    Colors(FrameColors),
    /// A number of codepoints.
    Len(u32),
    /// A color of a cell, if it has one of its own.
    Color(Option<RgbColor>),
    /// The style of a cell.
    Style(CellStyle),
    /// Where the cursor is, if it is in the viewport.
    Viewport(Option<CursorViewport>),
}

/// A frame that is being drawn.
#[derive(Clone, Copy, Debug, PartialEq, Eq, Structural)]
pub struct Frame {
    /// What to do next.
    pub action: Action,
    /// The colors of the frame, once they are read.
    pub colors: FrameColors,
    /// Whether there is a Kitty graphics storage.
    pub graphics: bool,
    /// The row that is being drawn.
    pub row: u64,
    /// The column that is being drawn.
    pub col: u64,
    /// How many codepoints the cell has.
    pub len: u32,
    /// The background color of the cell.
    pub bg: Option<RgbColor>,
    /// The foreground color of the cell.
    pub fg: Option<RgbColor>,
}

/// The answer is one to the action. Anything but opening the graphics storage, drawing and
/// advancing can fail.
pub open spec fn fits(action: Action, answer: Answer) -> bool {
    match action {
        Action::Update | Action::UpdateRows | Action::DrawImages(_) | Action::UpdateCells
        | Action::ReadText | Action::ClearRowDirty | Action::SetClean => answer is Done
            || answer is Failed,
        Action::ReadColors => answer is Colors || answer is Failed,
        Action::Clear(_) | Action::DrawCell(_) | Action::DrawCursor(_, _) => answer is Done,
        Action::OpenGraphics | Action::NextRow | Action::NextCell => answer is Flag,
        Action::ReadLen => answer is Len || answer is Failed,
        Action::ReadBg | Action::ReadFg => answer is Color || answer is Failed,
        Action::ReadStyle => answer is Style || answer is Failed,
        Action::ReadCursorVisible => answer is Flag || answer is Failed,
        Action::ReadCursorViewport => answer is Viewport || answer is Failed,
        Action::Finished | Action::Failed(_) => false,
    }
}

impl Frame {
    /// The frame with another action.
    pub open spec fn to(self, action: Action) -> Frame {
        Frame { action, ..self }
    }

    /// The frame with the images of `layer` to draw next, or with `action` where there is no
    /// graphics storage.
    pub open spec fn to_images(self, layer: Layer, action: Action) -> Frame {
        if self.graphics {
            self.to(Action::DrawImages(layer))
        } else {
            self.to(action)
        }
    }

    /// A frame at its start.
    pub open spec fn start() -> Frame {
        let black = RgbColor { r: 0, g: 0, b: 0 };
        Frame {
            action: Action::Update,
            colors: FrameColors { background: black, foreground: black, cursor: None },
            graphics: false,
            row: 0,
            col: 0,
            len: 0,
            bg: None,
            fg: None,
        }
    }

    /// The frame after `answer` came of its action.
    pub open spec fn after(self, answer: Answer) -> Frame {
        match (self.action, answer) {
            (_, Answer::Failed(e)) => self.to(Action::Failed(e)),
            (Action::Update, _) => self.to(Action::ReadColors),
            (Action::ReadColors, Answer::Colors(colors)) => Frame {
                colors,
                action: Action::Clear(colors.background),
                ..self
            },
            (Action::Clear(_), _) => self.to(Action::OpenGraphics),
            (Action::OpenGraphics, Answer::Flag(graphics)) => Frame {
                graphics,
                action: Action::UpdateRows,
                ..self
            },
            (Action::UpdateRows, _) => self.to_images(Layer::BelowBg, Action::NextRow),
            (Action::DrawImages(Layer::BelowBg), _) => self.to(Action::NextRow),
            (Action::NextRow, Answer::Flag(true)) => Frame {
                col: 0,
                action: Action::UpdateCells,
                ..self
            },
            (Action::NextRow, _) => self.to_images(Layer::BelowText, Action::ReadCursorVisible),
            (Action::UpdateCells, _) => self.to(Action::NextCell),
            (Action::NextCell, Answer::Flag(true)) => self.to(Action::ReadLen),
            (Action::NextCell, _) => self.to(Action::ClearRowDirty),
            (Action::ReadLen, Answer::Len(len)) => Frame { len, action: Action::ReadBg, ..self },
            (Action::ReadBg, Answer::Color(bg)) => Frame {
                bg,
                action: if self.len == 0 {
                    Action::DrawCell(empty_cell(bg))
                } else {
                    Action::ReadText
                },
                ..self
            },
            (Action::ReadText, _) => self.to(Action::ReadFg),
            (Action::ReadFg, Answer::Color(fg)) => Frame { fg, action: Action::ReadStyle, ..self },
            (Action::ReadStyle, Answer::Style(style)) => self.to(
                Action::DrawCell(text_cell(self.colors, self.bg, self.fg, style)),
            ),
            (Action::DrawCell(_), _) => Frame {
                col: (self.col + 1) as u64,
                action: Action::NextCell,
                ..self
            },
            (Action::ClearRowDirty, _) => Frame {
                row: (self.row + 1) as u64,
                action: Action::NextRow,
                ..self
            },
            (Action::DrawImages(Layer::BelowText), _) => self.to(Action::ReadCursorVisible),
            (Action::ReadCursorVisible, Answer::Flag(true)) => self.to(Action::ReadCursorViewport),
            (Action::ReadCursorVisible, _) => self.to_images(Layer::AboveText, Action::SetClean),
            (Action::ReadCursorViewport, Answer::Viewport(Some(at))) => self.to(
                Action::DrawCursor(
                    at,
                    match self.colors.cursor {
                        Some(color) => color,
                        None => self.colors.foreground,
                    },
                ),
            ),
            (Action::ReadCursorViewport, _) => self.to_images(Layer::AboveText, Action::SetClean),
            (Action::DrawCursor(_, _), _) => self.to_images(Layer::AboveText, Action::SetClean),
            (Action::DrawImages(_), _) => self.to(Action::SetClean),
            (Action::SetClean, _) => self.to(Action::Finished),
            _ => self,
        }
    }

    /// A frame at its start.
    pub fn new() -> (res: Self)
        ensures
            res == Self::start(),
    {
        let black = RgbColor { r: 0, g: 0, b: 0 };
        Frame {
            action: Action::Update,
            colors: FrameColors { background: black, foreground: black, cursor: None },
            graphics: false,
            row: 0,
            col: 0,
            len: 0,
            bg: None,
            fg: None,
        }
    }

    /// Draw the images of `layer` next, or do `action` where there is no graphics storage.
    fn images_or(&mut self, layer: Layer, action: Action)
        ensures
            *final(self) == old(self).to_images(layer, action),
    {
        if self.graphics {
            self.action = Action::DrawImages(layer);
        } else {
            self.action = action;
        }
    }

    /// Take the answer that came of the frame's action.
    pub fn step(&mut self, answer: Answer)
        requires
            fits(old(self).action, answer),
            old(self).row < u64::MAX,
            old(self).col < u64::MAX,
        ensures
            *final(self) == old(self).after(answer),
    {
        if let Answer::Failed(e) = answer {
            self.action = Action::Failed(e);
            return;
        }
        match self.action {
            Action::Update => {
                self.action = Action::ReadColors;
            },
            Action::ReadColors => {
                if let Answer::Colors(colors) = answer {
                    self.colors = colors;
                    self.action = Action::Clear(colors.background);
                }
            },
            Action::Clear(_) => {
                self.action = Action::OpenGraphics;
            },
            Action::OpenGraphics => {
                if let Answer::Flag(graphics) = answer {
                    self.graphics = graphics;
                    self.action = Action::UpdateRows;
                }
            },
            // Images below the cell backgrounds come before any cell.
            Action::UpdateRows => self.images_or(Layer::BelowBg, Action::NextRow),
            Action::DrawImages(Layer::BelowBg) => {
                self.action = Action::NextRow;
            },
            Action::NextRow => {
                if let Answer::Flag(true) = answer {
                    self.col = 0;
                    self.action = Action::UpdateCells;
                } else {
                    self.images_or(Layer::BelowText, Action::ReadCursorVisible);
                }
            },
            Action::UpdateCells => {
                self.action = Action::NextCell;
            },
            Action::NextCell => {
                if let Answer::Flag(true) = answer {
                    self.action = Action::ReadLen;
                } else {
                    self.action = Action::ClearRowDirty;
                }
            },
            Action::ReadLen => {
                if let Answer::Len(len) = answer {
                    self.len = len;
                    self.action = Action::ReadBg;
                }
            },
            Action::ReadBg => {
                if let Answer::Color(bg) = answer {
                    self.bg = bg;
                    // A cell without text might still have a background color, e.g. from an erase
                    // with a color set.
                    if self.len == 0 {
                        self.action = Action::DrawCell(
                            CellDrawing { rect: bg, text: None, twice: false },
                        );
                    } else {
                        self.action = Action::ReadText;
                    }
                }
            },
            Action::ReadText => {
                self.action = Action::ReadFg;
            },
            Action::ReadFg => {
                if let Answer::Color(fg) = answer {
                    self.fg = fg;
                    self.action = Action::ReadStyle;
                }
            },
            Action::ReadStyle => {
                if let Answer::Style(style) = answer {
                    let drawing = draw_text_cell(self.colors, self.bg, self.fg, style);
                    self.action = Action::DrawCell(drawing);
                }
            },
            Action::DrawCell(_) => {
                self.col += 1;
                self.action = Action::NextCell;
            },
            Action::ClearRowDirty => {
                self.row += 1;
                self.action = Action::NextRow;
            },
            Action::DrawImages(Layer::BelowText) => {
                self.action = Action::ReadCursorVisible;
            },
            Action::ReadCursorVisible => {
                if let Answer::Flag(true) = answer {
                    self.action = Action::ReadCursorViewport;
                } else {
                    self.images_or(Layer::AboveText, Action::SetClean);
                }
            },
            Action::ReadCursorViewport => {
                if let Answer::Viewport(Some(at)) = answer {
                    let color = match self.colors.cursor {
                        Some(color) => color,
                        None => self.colors.foreground,
                    };
                    self.action = Action::DrawCursor(at, color);
                } else {
                    self.images_or(Layer::AboveText, Action::SetClean);
                }
            },
            Action::DrawCursor(_, _) => self.images_or(Layer::AboveText, Action::SetClean),
            Action::DrawImages(_) => {
                self.action = Action::SetClean;
            },
            Action::SetClean => {
                self.action = Action::Finished;
            },
            Action::Finished => {},
            Action::Failed(_) => {},
        }
    }
}

//---------------------------------------
// What every frame does
//---------------------------------------

/// The answers are ones to the actions of a frame, one after the other, and there are not more of
/// them than rows and columns can be counted.
pub open spec fn answers_fit(answers: Seq<Answer>) -> bool
    decreases answers.len(),
{
    if answers.len() == 0 {
        true
    } else {
        let earlier = answers.drop_last();
        answers_fit(earlier) && fits(drawn_so_far(earlier).action, answers.last()) && answers.len()
            < u64::MAX
    }
}

/// The frame after the answers, one after the other.
pub open spec fn drawn_so_far(answers: Seq<Answer>) -> Frame
    decreases answers.len(),
{
    if answers.len() == 0 {
        Frame::start()
    } else {
        drawn_so_far(answers.drop_last()).after(answers.last())
    }
}

/// The layers of images that were drawn, or are about to be, in order.
pub open spec fn layers_drawn(answers: Seq<Answer>) -> Seq<Layer>
    decreases answers.len(),
{
    if answers.len() == 0 {
        seq![]
    } else {
        let earlier = layers_drawn(answers.drop_last());
        match drawn_so_far(answers).action {
            Action::DrawImages(layer) => earlier.push(layer),
            _ => earlier,
        }
    }
}

/// How many rows were started, and how many were set to not dirty.
pub open spec fn rows_seen(answers: Seq<Answer>) -> (nat, nat)
    decreases answers.len(),
{
    if answers.len() == 0 {
        (0, 0)
    } else {
        let (started, cleared) = rows_seen(answers.drop_last());
        let then = drawn_so_far(answers.drop_last()).action;
        (
            if then is NextRow && answers.last() == Answer::Flag(true) {
                started + 1
            } else {
                started
            },
            if then is ClearRowDirty && answers.last() is Done {
                cleared + 1
            } else {
                cleared
            },
        )
    }
}

/// The layers that are drawn by the time of an action, where there is a graphics storage.
spec fn layers_by(action: Action) -> Seq<Layer> {
    match action {
        Action::DrawImages(Layer::BelowBg) | Action::NextRow | Action::UpdateCells
        | Action::NextCell | Action::ReadLen | Action::ReadBg | Action::ReadText | Action::ReadFg
        | Action::ReadStyle | Action::DrawCell(_) | Action::ClearRowDirty => seq![Layer::BelowBg],
        Action::DrawImages(Layer::BelowText) | Action::ReadCursorVisible
        | Action::ReadCursorViewport | Action::DrawCursor(_, _) => seq![
            Layer::BelowBg,
            Layer::BelowText,
        ],
        Action::DrawImages(_) | Action::SetClean | Action::Finished => seq![
            Layer::BelowBg,
            Layer::BelowText,
            Layer::AboveText,
        ],
        _ => seq![],
    }
}

/// A row was started and not set to not dirty yet.
spec fn in_row(action: Action) -> bool {
    match action {
        Action::UpdateCells | Action::NextCell | Action::ReadLen | Action::ReadBg
        | Action::ReadText | Action::ReadFg | Action::ReadStyle | Action::DrawCell(_)
        | Action::ClearRowDirty => true,
        _ => false,
    }
}

proof fn lemma_frame_so_far(answers: Seq<Answer>)
    requires
        answers_fit(answers),
    ensures
        drawn_so_far(answers).action !is Failed ==> {
            let frame = drawn_so_far(answers);
            let (started, cleared) = rows_seen(answers);
            &&& layers_drawn(answers) == if frame.graphics {
                layers_by(frame.action)
            } else {
                seq![]
            }
            &&& frame.row == cleared
            &&& started == cleared + if in_row(frame.action) {
                1int
            } else {
                0
            }
            &&& frame.action is DrawImages ==> frame.graphics
            &&& match frame.action {
                Action::Update | Action::ReadColors | Action::Clear(_)
                | Action::OpenGraphics => !frame.graphics,
                _ => true,
            }
            &&& frame.action != Action::DrawImages(Layer::All)
        },
        rows_seen(answers).1 <= answers.len(),
    decreases answers.len(),
{
    if answers.len() > 0 {
        let earlier = answers.drop_last();
        lemma_frame_so_far(earlier);
        let then = drawn_so_far(earlier);
        let now = drawn_so_far(answers);
        assert(now == then.after(answers.last()));
        if now.action !is Failed {
            assert(then.action !is Failed);
            assert(layers_drawn(answers) =~= if now.graphics {
                layers_by(now.action)
            } else {
                seq![]
            });
        }
    }
}

/// Every frame that is finished drew the three layers of images in order, from the bottom to the
/// top, or none at all where there is no graphics storage.
pub proof fn a_finished_frame_drew_every_layer(answers: Seq<Answer>)
    requires
        answers_fit(answers),
        drawn_so_far(answers).action is Finished,
    ensures
        layers_drawn(answers) == if drawn_so_far(answers).graphics {
            seq![Layer::BelowBg, Layer::BelowText, Layer::AboveText]
        } else {
            seq![]
        },
{
    lemma_frame_so_far(answers);
}

/// Every frame that is finished set each row that it drew to not dirty, once, and set the render
/// state to clean at its very end.
pub proof fn a_finished_frame_left_nothing_dirty(answers: Seq<Answer>)
    requires
        answers_fit(answers),
        drawn_so_far(answers).action is Finished,
    ensures
        rows_seen(answers).0 == rows_seen(answers).1 == drawn_so_far(answers).row,
        answers.len() > 0,
        drawn_so_far(answers.drop_last()).action is SetClean,
        answers.last() is Done,
{
    lemma_frame_so_far(answers);
    assert(answers.len() > 0);
    let then = drawn_so_far(answers.drop_last());
    assert(drawn_so_far(answers) == then.after(answers.last()));
}

/// The first error ends a frame, and is the one that it fails with.
pub proof fn the_first_error_ends_a_frame(frame: Frame, e: Error)
    requires
        fits(frame.action, Answer::Failed(e)),
    ensures
        frame.after(Answer::Failed(e)).action == Action::Failed(e),
        forall|answer: Answer| !fits(Action::Failed(e), answer),
{
}

/// A cell with text always draws it, and draws a background exactly if it has one of its own or is
/// inverse; inverse swaps the two colors.
pub proof fn inverse_swaps_the_colors(
    colors: FrameColors,
    bg: Option<RgbColor>,
    fg: Option<RgbColor>,
    bold: bool,
)
    ensures
        ({
            let plain = text_cell(colors, bg, fg, CellStyle { inverse: false, bold });
            let inverse = text_cell(colors, bg, fg, CellStyle { inverse: true, bold });
            &&& plain.rect is Some <==> bg is Some
            &&& inverse.rect == plain.text
            &&& bg is Some ==> inverse.text == plain.rect
            &&& bg is None ==> inverse.text == Some(colors.background)
            &&& plain.twice == bold
            &&& inverse.twice == bold
        }),
{
}

/// A cell's own colors are the ones that it is drawn in, whatever else it has.
///
/// The text has the foreground color of the cell, and the rectangle behind it the background color;
/// inverse swaps the two. The default colors only stand in for a color that the cell does not have,
/// and a cell that is not inverse and has no background color has no rectangle.
pub proof fn a_cell_is_drawn_in_its_own_colors(
    colors: FrameColors,
    bg: Option<RgbColor>,
    fg: Option<RgbColor>,
    style: CellStyle,
    color: RgbColor,
)
    ensures
        ({
            let drawing = text_cell(colors, bg, fg, style);
            &&& fg == Some(color) && !style.inverse ==> drawing.text == Some(color)
            &&& fg == Some(color) && style.inverse ==> drawing.rect == Some(color)
            &&& bg == Some(color) && !style.inverse ==> drawing.rect == Some(color)
            &&& bg == Some(color) && style.inverse ==> drawing.text == Some(color)
            &&& fg is None && !style.inverse ==> drawing.text == Some(colors.foreground)
            &&& fg is None && style.inverse ==> drawing.rect == Some(colors.foreground)
            &&& bg is None && !style.inverse ==> drawing.rect is None
            &&& bg is None && style.inverse ==> drawing.text == Some(colors.background)
            &&& drawing.twice <==> style.bold
        }),
        ({
            let drawing = empty_cell(bg);
            &&& drawing.rect == bg
            &&& drawing.text is None
            &&& !drawing.twice
        }),
{
}

/// What a cell looks like depends on nothing but its own colors, its style, and the default for a
/// color that it does not have: the text and the rectangle do not influence each other.
pub proof fn the_two_colors_are_apart(
    colors: FrameColors,
    other: FrameColors,
    bg: Option<RgbColor>,
    other_bg: Option<RgbColor>,
    fg: Option<RgbColor>,
    other_fg: Option<RgbColor>,
    inverse: bool,
    bold: bool,
    other_bold: bool,
)
    requires
        colors.foreground == other.foreground,
        colors.background == other.background,
    ensures
        ({
            let style = CellStyle { inverse, bold };
            let other_style = CellStyle { inverse, bold: other_bold };
            let drawing = text_cell(colors, bg, fg, style);
            let front_changed = text_cell(other, bg, other_fg, other_style);
            let back_changed = text_cell(other, other_bg, fg, other_style);
            &&& !inverse ==> front_changed.rect == drawing.rect && back_changed.text == drawing.text
            &&& inverse ==> front_changed.text == drawing.text && back_changed.rect == drawing.rect
        }),
{
}

//---------------------------------------
// A whole frame
//---------------------------------------

/// A cell of the screen, and what there is to read of it.
pub ghost struct ScreenCell {
    /// How many codepoints it has.
    pub len: u32,
    /// Its background color, if it has one of its own.
    pub bg: Option<RgbColor>,
    /// Its foreground color, if it has one of its own.
    pub fg: Option<RgbColor>,
    /// Its style.
    pub style: CellStyle,
}

/// What there is to read of a render state.
pub ghost struct Screen {
    /// The colors.
    pub colors: FrameColors,
    /// Whether there is a Kitty graphics storage.
    pub graphics: bool,
    /// The cells, row by row.
    pub rows: Seq<Seq<ScreenCell>>,
    /// Whether the cursor is visible.
    pub cursor_visible: bool,
    /// Where the cursor is, if it is in the viewport.
    pub cursor: Option<CursorViewport>,
}

/// Something that is painted.
pub ghost enum Paint {
    /// The whole window in a color.
    Window(RgbColor),
    /// The images of a layer.
    Images(Layer),
    /// A cell, by its row and its column.
    Cell { row: int, col: int, drawing: CellDrawing },
    /// The cursor.
    Cursor(CursorViewport, RgbColor),
}

/// The images of a layer, where there is a graphics storage.
pub open spec fn images_of(screen: Screen, layer: Layer) -> Seq<Paint> {
    if screen.graphics {
        seq![Paint::Images(layer)]
    } else {
        seq![]
    }
}

/// How a cell of the screen is drawn: with its text if it has any codepoints.
pub open spec fn cell_of(screen: Screen, row: int, col: int) -> Paint {
    let cell = screen.rows[row][col];
    Paint::Cell {
        row,
        col,
        drawing: if cell.len == 0 {
            empty_cell(cell.bg)
        } else {
            text_cell(screen.colors, cell.bg, cell.fg, cell.style)
        },
    }
}

/// The first `cols` cells of a row, from left to right.
pub open spec fn row_of(screen: Screen, row: int, cols: int) -> Seq<Paint> {
    Seq::new(cols as nat, |col: int| cell_of(screen, row, col))
}

/// The first `rows` rows, from top to bottom.
pub open spec fn rows_of(screen: Screen, rows: int) -> Seq<Paint>
    decreases rows,
{
    if rows <= 0 {
        seq![]
    } else {
        rows_of(screen, rows - 1) + row_of(
            screen,
            rows - 1,
            screen.rows[rows - 1].len() as int,
        )
    }
}

/// The cursor, if it is visible and in the viewport: in its own color, or else in the default
/// foreground color.
pub open spec fn cursor_of(screen: Screen) -> Seq<Paint> {
    match screen.cursor {
        Some(at) if screen.cursor_visible => seq![
            Paint::Cursor(
                at,
                match screen.colors.cursor {
                    Some(color) => color,
                    None => screen.colors.foreground,
                },
            ),
        ],
        _ => seq![],
    }
}

/// What is painted up to the first cell.
pub open spec fn ground_of(screen: Screen) -> Seq<Paint> {
    seq![Paint::Window(screen.colors.background)] + images_of(screen, Layer::BelowBg)
}

/// The picture of a screen, from the bottom to the top: the background, the images below the cells,
/// every cell, the images below the text, the cursor, and the images above the text.
pub open spec fn picture_of(screen: Screen) -> Seq<Paint> {
    ground_of(screen) + rows_of(screen, screen.rows.len() as int) + images_of(
        screen,
        Layer::BelowText,
    ) + cursor_of(screen) + images_of(screen, Layer::AboveText)
}

/// What comes of an action that does not fail, when `rows` rows were advanced to, and `cells` cells
/// of the last of them.
pub open spec fn answer_of(screen: Screen, rows: nat, cells: nat, action: Action) -> Answer {
    let cell = screen.rows[rows - 1][cells - 1];
    match action {
        Action::ReadColors => Answer::Colors(screen.colors),
        Action::OpenGraphics => Answer::Flag(screen.graphics),
        Action::NextRow => Answer::Flag(rows < screen.rows.len()),
        Action::NextCell => Answer::Flag(cells < screen.rows[rows - 1].len()),
        Action::ReadLen => Answer::Len(cell.len),
        Action::ReadBg => Answer::Color(cell.bg),
        Action::ReadFg => Answer::Color(cell.fg),
        Action::ReadStyle => Answer::Style(cell.style),
        Action::ReadCursorVisible => Answer::Flag(screen.cursor_visible),
        Action::ReadCursorViewport => Answer::Viewport(screen.cursor),
        _ => Answer::Done,
    }
}

/// How many rows were advanced to, and how many cells of the last of them.
pub open spec fn started_at(answers: Seq<Answer>) -> (nat, nat)
    decreases answers.len(),
{
    if answers.len() == 0 {
        (0, 0)
    } else {
        let (rows, cells) = started_at(answers.drop_last());
        let then = drawn_so_far(answers.drop_last()).action;
        if then is NextRow && answers.last() == Answer::Flag(true) {
            (rows + 1, 0)
        } else if then is NextCell && answers.last() == Answer::Flag(true) {
            (rows, cells + 1)
        } else {
            (rows, cells)
        }
    }
}

/// The answers are ones to the actions of a frame of the screen, one after the other. Any action that
/// can fail may have failed.
pub open spec fn answers_show(screen: Screen, answers: Seq<Answer>) -> bool
    decreases answers.len(),
{
    if answers.len() == 0 {
        true
    } else {
        let earlier = answers.drop_last();
        let action = drawn_so_far(earlier).action;
        let (rows, cells) = started_at(earlier);
        &&& answers_show(screen, earlier)
        &&& fits(action, answers.last())
        &&& answers.len() < u64::MAX
        &&& answers.last() !is Failed ==> answers.last() == answer_of(screen, rows, cells, action)
    }
}

/// What an action of a frame paints.
pub open spec fn painted_by(frame: Frame) -> Seq<Paint> {
    match frame.action {
        Action::Clear(color) => seq![Paint::Window(color)],
        Action::DrawImages(layer) => seq![Paint::Images(layer)],
        Action::DrawCell(drawing) => seq![
            Paint::Cell { row: frame.row as int, col: frame.col as int, drawing },
        ],
        Action::DrawCursor(at, color) => seq![Paint::Cursor(at, color)],
        _ => seq![],
    }
}

/// What was painted, or is about to be, in order.
pub open spec fn painted(answers: Seq<Answer>) -> Seq<Paint>
    decreases answers.len(),
{
    if answers.len() == 0 {
        seq![]
    } else {
        painted(answers.drop_last()) + painted_by(drawn_so_far(answers))
    }
}

/// A cell was advanced to and not drawn yet.
spec fn in_cell(action: Action) -> bool {
    match action {
        Action::ReadLen | Action::ReadBg | Action::ReadText | Action::ReadFg | Action::ReadStyle
        | Action::DrawCell(_) => true,
        _ => false,
    }
}

/// What is painted by the time of an action, at a row and a column.
spec fn painted_at(screen: Screen, action: Action, row: int, col: int) -> Seq<Paint> {
    let ground = ground_of(screen);
    let cells = ground + rows_of(screen, screen.rows.len() as int);
    let below = cells + images_of(screen, Layer::BelowText);
    let cursor = below + cursor_of(screen);
    match action {
        Action::Update | Action::ReadColors => seq![],
        Action::Clear(_) | Action::OpenGraphics | Action::UpdateRows => seq![
            Paint::Window(screen.colors.background),
        ],
        Action::DrawImages(Layer::BelowBg) => ground,
        Action::NextRow => ground + rows_of(screen, row),
        Action::DrawCell(_) => ground + rows_of(screen, row) + row_of(screen, row, col + 1),
        Action::UpdateCells | Action::NextCell | Action::ReadLen | Action::ReadBg
        | Action::ReadText | Action::ReadFg | Action::ReadStyle | Action::ClearRowDirty => ground
            + rows_of(screen, row) + row_of(screen, row, col),
        Action::DrawImages(Layer::BelowText) | Action::ReadCursorVisible
        | Action::ReadCursorViewport => below,
        Action::DrawCursor(_, _) => cursor,
        _ => cursor + images_of(screen, Layer::AboveText),
    }
}

/// What a frame that has not failed knows of the screen.
spec fn frame_at(screen: Screen, rows: nat, cells: nat, frame: Frame) -> bool {
    let action = frame.action;
    let cell = screen.rows[rows - 1][cells - 1];
    &&& action is Update || action is ReadColors || frame.colors == screen.colors
    &&& action is Update || action is ReadColors || action is Clear || action is OpenGraphics
        || frame.graphics == screen.graphics
    &&& rows <= screen.rows.len()
    &&& rows == frame.row + if in_row(action) {
        1int
    } else {
        0
    }
    &&& in_row(action) ==> {
        &&& cells <= screen.rows[rows - 1].len()
        &&& cells == frame.col + if in_cell(action) {
            1int
        } else {
            0
        }
    }
    &&& action is UpdateCells ==> cells == 0
    &&& action is ClearRowDirty ==> cells == screen.rows[rows - 1].len()
    &&& action is ReadBg ==> frame.len == cell.len
    &&& action is ReadText || action is ReadFg || action is ReadStyle ==> {
        &&& frame.len == cell.len
        &&& cell.len != 0
        &&& frame.bg == cell.bg
    }
    &&& action is ReadStyle ==> frame.fg == cell.fg
    &&& action is DrawImages ==> screen.graphics && action != Action::DrawImages(Layer::All)
    &&& match action {
        Action::ReadCursorVisible | Action::ReadCursorViewport | Action::DrawCursor(_, _)
        | Action::DrawImages(Layer::BelowText) | Action::DrawImages(Layer::AboveText)
        | Action::SetClean | Action::Finished => rows == screen.rows.len(),
        Action::Update | Action::ReadColors | Action::Clear(_) | Action::OpenGraphics
        | Action::UpdateRows | Action::DrawImages(Layer::BelowBg) => rows == 0,
        _ => true,
    }
    &&& action is ReadCursorViewport ==> screen.cursor_visible
}

#[verifier::spinoff_prover]
proof fn lemma_frame_step(screen: Screen, rows: nat, cells: nat, then: Frame, now_at: (nat, nat))
    requires
        then.action !is Failed,
        fits(then.action, answer_of(screen, rows, cells, then.action)),
        frame_at(screen, rows, cells, then),
        rows < u64::MAX,
        cells < u64::MAX,
        now_at == if then.action is NextRow && rows < screen.rows.len() {
            (rows + 1, 0)
        } else if then.action is NextCell && cells < screen.rows[rows - 1].len() {
            (rows, cells + 1)
        } else {
            (rows, cells)
        },
    ensures
        frame_at(
            screen,
            now_at.0,
            now_at.1,
            then.after(answer_of(screen, rows, cells, then.action)),
        ),
{
}

proof fn lemma_nothing_more<A>(s: Seq<A>)
    ensures
        s + Seq::<A>::empty() == s,
{
    assert(s + Seq::<A>::empty() =~= s);
}

#[verifier::spinoff_prover]
#[verifier::rlimit(50)]
proof fn lemma_paint_step(screen: Screen, rows: nat, cells: nat, then: Frame)
    requires
        then.action !is Failed,
        fits(then.action, answer_of(screen, rows, cells, then.action)),
        frame_at(screen, rows, cells, then),
        rows < u64::MAX,
        cells < u64::MAX,
    ensures
        ({
            let now = then.after(answer_of(screen, rows, cells, then.action));
            painted_at(screen, then.action, then.row as int, then.col as int) + painted_by(now)
                == painted_at(screen, now.action, now.row as int, now.col as int)
        }),
{
    let now = then.after(answer_of(screen, rows, cells, then.action));
    let before = painted_at(screen, then.action, then.row as int, then.col as int);
    let row = then.row as int;
    let col = then.col as int;
    lemma_nothing_more(before);
    lemma_nothing_more(seq![Paint::Window(screen.colors.background)]);
    let ground = ground_of(screen);
    let all = ground + rows_of(screen, screen.rows.len() as int);
    lemma_nothing_more(all);
    let below = all + images_of(screen, Layer::BelowText);
    lemma_nothing_more(below);
    lemma_nothing_more(below + cursor_of(screen));
    match then.action {
        Action::Update => {},
        Action::ReadColors => {
            assert(before + painted_by(now) =~= seq![Paint::Window(screen.colors.background)]);
        },
        Action::UpdateRows => {
            if !screen.graphics {
                assert(ground =~= before);
            }
            assert(rows_of(screen, 0) =~= Seq::<Paint>::empty());
            lemma_nothing_more(ground);
        },
        Action::DrawImages(Layer::BelowBg) => {
            assert(rows_of(screen, 0) =~= Seq::<Paint>::empty());
        },
        Action::NextRow => {
            if now.action is UpdateCells {
                assert(row_of(screen, row, 0) =~= Seq::<Paint>::empty());
            }
        },
        Action::ReadBg => {
            if now.action is DrawCell {
                assert(row_of(screen, row, col + 1) =~= row_of(screen, row, col) + seq![
                    cell_of(screen, row, col),
                ]);
                assert(before + painted_by(now) =~= ground + rows_of(screen, row) + row_of(
                    screen,
                    row,
                    col + 1,
                ));
            }
        },
        Action::ReadStyle => {
            assert(row_of(screen, row, col + 1) =~= row_of(screen, row, col) + seq![
                cell_of(screen, row, col),
            ]);
            assert(before + painted_by(now) =~= ground + rows_of(screen, row) + row_of(
                screen,
                row,
                col + 1,
            ));
        },
        Action::ClearRowDirty => {
            assert(rows_of(screen, row + 1) == rows_of(screen, row) + row_of(
                screen,
                row,
                screen.rows[row].len() as int,
            ));
            assert(before =~= ground + rows_of(screen, row + 1));
        },
        _ => {},
    }
}

proof fn lemma_frame_of_screen(screen: Screen, answers: Seq<Answer>)
    requires
        answers_show(screen, answers),
        drawn_so_far(answers).action !is Failed,
    ensures
        ({
            let frame = drawn_so_far(answers);
            let (rows, cells) = started_at(answers);
            &&& frame_at(screen, rows, cells, frame)
            &&& rows <= answers.len()
            &&& cells <= answers.len()
            &&& painted(answers) == painted_at(
                screen,
                frame.action,
                frame.row as int,
                frame.col as int,
            )
        }),
    decreases answers.len(),
{
    if answers.len() > 0 {
        let earlier = answers.drop_last();
        let then = drawn_so_far(earlier);
        let (rows, cells) = started_at(earlier);
        assert(drawn_so_far(answers) == then.after(answers.last()));
        assert(then.action !is Failed);
        assert(answers.last() !is Failed);
        lemma_frame_of_screen(screen, earlier);
        lemma_frame_step(screen, rows, cells, then, started_at(answers));
        lemma_paint_step(screen, rows, cells, then);
    }
}

/// A frame that is finished has painted the picture of the screen: every cell of every row once, at
/// its own row and column, and all layers from the bottom to the top.
pub proof fn a_finished_frame_painted_the_picture(screen: Screen, answers: Seq<Answer>)
    requires
        answers_show(screen, answers),
        drawn_so_far(answers).action is Finished,
    ensures
        painted(answers) == picture_of(screen),
{
    lemma_frame_of_screen(screen, answers);
}

} // verus!
