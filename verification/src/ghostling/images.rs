//! Drawing the Kitty images of one layer.
//!
//! As with a [frame](crate::ghostling::frame), reading and drawing are the driver's work, and
//! [`ImagePass`] decides what to do next.
use crate::error::Error;
use crate::kitty::graphics::{ImageFormat, Layer, PlacementRenderInfo};
use vstd::prelude::*;

verus! {

/// Whether a placement can be seen at all: it is in the viewport, and has a width and a height in
/// both pixels and cells.
pub open spec fn can_be_seen(info: PlacementRenderInfo) -> bool {
    &&& info.viewport_visible
    &&& info.pixel_width != 0
    &&& info.pixel_height != 0
    &&& info.grid_cols != 0
    &&& info.grid_rows != 0
}

/// Whether a placement can be seen at all.
pub fn is_seen(info: &PlacementRenderInfo) -> (res: bool)
    ensures
        res == can_be_seen(*info),
{
    info.viewport_visible && info.pixel_width != 0 && info.pixel_height != 0 && info.grid_cols != 0
        && info.grid_rows != 0
}

/// Whether `len` bytes hold all pixels of an RGBA image.
pub open spec fn holds_pixels(len: usize, width: u32, height: u32) -> bool {
    len >= width * height * 4
}

/// Whether `len` bytes hold all pixels of an RGBA image.
pub fn has_all_pixels(len: usize, width: u32, height: u32) -> (res: bool)
    requires
        width * height * 4 <= u32::MAX,
    ensures
        res == holds_pixels(len, width, height),
{
    assert(width * height <= u32::MAX && width * height >= 0) by (nonlinear_arith)
        requires
            width * height * 4 <= u32::MAX,
            width >= 0,
            height >= 0,
    ;
    let needed: u32 = width * height * 4;
    len >= needed as usize
}

/// How to draw an image.
#[derive(Clone, Copy, Debug, PartialEq, Eq, Structural)]
pub struct ImageDrawing {
    /// The width of the image in pixels.
    pub width: u32,
    /// The height of the image in pixels.
    pub height: u32,
    /// Where it goes, which part of it is shown, and how many cells it covers.
    pub info: PlacementRenderInfo,
    /// The offset from the left edge of the cell in pixels.
    pub x_offset: u32,
    /// The offset from the top edge of the cell in pixels.
    pub y_offset: u32,
}

/// What the driver has to do.
#[derive(Clone, Copy, Debug, PartialEq, Eq, Structural)]
pub enum Action {
    /// Start over at the placements of the storage.
    UpdatePlacements,
    /// Filter the placements by a layer.
    SetLayer(Layer),
    /// Advance to the next placement.
    NextPlacement,
    /// Read the ID of the placement's image.
    ReadImageId,
    /// Look the image up.
    LookUp(u32),
    /// Read the rendering geometry of the placement.
    ReadInfo,
    /// Read the pixel format of the image.
    ReadFormat,
    /// Read the width of the image.
    ReadWidth,
    /// Read the height of the image.
    ReadHeight,
    /// Read the pixel data of the image.
    ReadData,
    /// Read the offset of the placement from the left edge of the cell.
    ReadXOffset,
    /// Read the offset of the placement from the top edge of the cell.
    ReadYOffset,
    /// Draw the image.
    Draw(ImageDrawing),
    /// Nothing: the layer is finished.
    Finished,
    /// Nothing: the layer failed.
    Failed(Error),
}

/// What came of an action.
#[derive(Clone, Copy, Debug, PartialEq, Eq, Structural)]
pub enum Answer {
    /// It was done.
    Done,
    /// It failed.
    Failed(Error),
    /// Whether there is a next placement, or such an image.
    Flag(bool),
    /// A number of the image or the placement.
    Number(u32),
    /// The rendering geometry of the placement.
    Info(PlacementRenderInfo),
    /// The pixel format of the image.
    Format(ImageFormat),
    /// How many bytes of pixel data the image has.
    DataLen(usize),
}

/// The images of one layer that are being drawn.
#[derive(Clone, Copy, Debug, PartialEq, Eq, Structural)]
pub struct ImagePass {
    /// What to do next.
    pub action: Action,
    /// The layer.
    pub layer: Layer,
    /// The rendering geometry of the placement.
    pub info: PlacementRenderInfo,
    /// The pixel format of the image, once one was read.
    pub format: Option<ImageFormat>,
    /// The width of the image in pixels.
    pub width: u32,
    /// The height of the image in pixels.
    pub height: u32,
    /// How many bytes of pixel data the image has.
    pub data_len: usize,
    /// The offset from the left edge of the cell in pixels.
    pub x_offset: u32,
}

/// The answer is one to the action. An image has to be small enough for its bytes to be counted.
pub open spec fn fits(pass: ImagePass, answer: Answer) -> bool {
    match pass.action {
        Action::UpdatePlacements | Action::SetLayer(_) => answer is Done || answer is Failed,
        Action::NextPlacement | Action::LookUp(_) => answer is Flag,
        Action::ReadImageId | Action::ReadWidth | Action::ReadHeight | Action::ReadXOffset
        | Action::ReadYOffset => answer is Number || answer is Failed,
        Action::ReadInfo => answer is Info || answer is Failed,
        Action::ReadFormat => answer is Format || answer is Failed,
        Action::ReadData => answer is Failed || answer is DataLen && pass.width * pass.height * 4
            <= u32::MAX,
        Action::Draw(_) => answer is Done,
        Action::Finished | Action::Failed(_) => false,
    }
}

impl ImagePass {
    /// The pass with another action.
    pub open spec fn to(self, action: Action) -> ImagePass {
        ImagePass { action, ..self }
    }

    /// The geometry of no placement.
    pub open spec fn no_info() -> PlacementRenderInfo {
        PlacementRenderInfo {
            pixel_width: 0,
            pixel_height: 0,
            grid_cols: 0,
            grid_rows: 0,
            viewport_col: 0,
            viewport_row: 0,
            viewport_visible: false,
            source_x: 0,
            source_y: 0,
            source_width: 0,
            source_height: 0,
        }
    }

    /// A pass at its start.
    pub open spec fn start(layer: Layer) -> ImagePass {
        ImagePass {
            action: Action::UpdatePlacements,
            layer,
            info: Self::no_info(),
            format: None,
            width: 0,
            height: 0,
            data_len: 0,
            x_offset: 0,
        }
    }

    /// The pass after `answer` came of its action.
    ///
    /// A placement is skipped if its image is gone, if it cannot be seen, if its pixels are not
    /// RGBA, or if there are not enough of them.
    pub open spec fn after(self, answer: Answer) -> ImagePass {
        match (self.action, answer) {
            (_, Answer::Failed(e)) => self.to(Action::Failed(e)),
            (Action::UpdatePlacements, _) => self.to(Action::SetLayer(self.layer)),
            (Action::SetLayer(_), _) => self.to(Action::NextPlacement),
            (Action::NextPlacement, Answer::Flag(true)) => self.to(Action::ReadImageId),
            (Action::NextPlacement, _) => self.to(Action::Finished),
            (Action::ReadImageId, Answer::Number(id)) => self.to(Action::LookUp(id)),
            (Action::LookUp(_), Answer::Flag(true)) => self.to(Action::ReadInfo),
            (Action::LookUp(_), _) => self.to(Action::NextPlacement),
            (Action::ReadInfo, Answer::Info(info)) => ImagePass {
                info,
                action: if can_be_seen(info) {
                    Action::ReadFormat
                } else {
                    Action::NextPlacement
                },
                ..self
            },
            (Action::ReadFormat, Answer::Format(format)) => ImagePass {
                format: Some(format),
                action: if format == ImageFormat::Rgba {
                    Action::ReadWidth
                } else {
                    Action::NextPlacement
                },
                ..self
            },
            (Action::ReadWidth, Answer::Number(width)) => ImagePass {
                width,
                action: Action::ReadHeight,
                ..self
            },
            (Action::ReadHeight, Answer::Number(height)) => ImagePass {
                height,
                action: Action::ReadData,
                ..self
            },
            (Action::ReadData, Answer::DataLen(data_len)) => ImagePass {
                data_len,
                action: if holds_pixels(data_len, self.width, self.height) {
                    Action::ReadXOffset
                } else {
                    Action::NextPlacement
                },
                ..self
            },
            (Action::ReadXOffset, Answer::Number(x_offset)) => ImagePass {
                x_offset,
                action: Action::ReadYOffset,
                ..self
            },
            (Action::ReadYOffset, Answer::Number(y_offset)) => self.to(
                Action::Draw(
                    ImageDrawing {
                        width: self.width,
                        height: self.height,
                        info: self.info,
                        x_offset: self.x_offset,
                        y_offset,
                    },
                ),
            ),
            (Action::Draw(_), _) => self.to(Action::NextPlacement),
            _ => self,
        }
    }

    /// What is known of the placement by the time of an action: only one that can be seen is
    /// looked at further, and only one whose pixels are RGBA and all there is drawn.
    pub open spec fn wf(self) -> bool {
        match self.action {
            Action::ReadFormat => can_be_seen(self.info),
            Action::ReadWidth | Action::ReadHeight | Action::ReadData => {
                &&& can_be_seen(self.info)
                &&& self.format == Some(ImageFormat::Rgba)
            },
            Action::ReadXOffset | Action::ReadYOffset => {
                &&& can_be_seen(self.info)
                &&& self.format == Some(ImageFormat::Rgba)
                &&& holds_pixels(self.data_len, self.width, self.height)
            },
            Action::Draw(drawing) => {
                &&& can_be_seen(drawing.info)
                &&& self.format == Some(ImageFormat::Rgba)
                &&& holds_pixels(self.data_len, drawing.width, drawing.height)
            },
            _ => true,
        }
    }

    /// A pass at its start.
    pub fn new(layer: Layer) -> (res: Self)
        ensures
            res == Self::start(layer),
            res.wf(),
    {
        ImagePass {
            action: Action::UpdatePlacements,
            layer,
            info: PlacementRenderInfo {
                pixel_width: 0,
                pixel_height: 0,
                grid_cols: 0,
                grid_rows: 0,
                viewport_col: 0,
                viewport_row: 0,
                viewport_visible: false,
                source_x: 0,
                source_y: 0,
                source_width: 0,
                source_height: 0,
            },
            format: None,
            width: 0,
            height: 0,
            data_len: 0,
            x_offset: 0,
        }
    }

    /// Take the answer that came of the pass's action.
    pub fn step(&mut self, answer: Answer)
        requires
            old(self).wf(),
            fits(*old(self), answer),
        ensures
            *final(self) == old(self).after(answer),
            final(self).wf(),
    {
        if let Answer::Failed(e) = answer {
            self.action = Action::Failed(e);
            return;
        }
        match self.action {
            Action::UpdatePlacements => {
                self.action = Action::SetLayer(self.layer);
            },
            Action::SetLayer(_) => {
                self.action = Action::NextPlacement;
            },
            Action::NextPlacement => {
                if let Answer::Flag(true) = answer {
                    self.action = Action::ReadImageId;
                } else {
                    self.action = Action::Finished;
                }
            },
            Action::ReadImageId => {
                if let Answer::Number(id) = answer {
                    self.action = Action::LookUp(id);
                }
            },
            Action::LookUp(_) => {
                if let Answer::Flag(true) = answer {
                    self.action = Action::ReadInfo;
                } else {
                    self.action = Action::NextPlacement;
                }
            },
            Action::ReadInfo => {
                if let Answer::Info(info) = answer {
                    self.info = info;
                    self.action = if is_seen(&info) {
                        Action::ReadFormat
                    } else {
                        Action::NextPlacement
                    };
                }
            },
            // Only RGBA is handled: the PNG decoder converts everything to it.
            Action::ReadFormat => {
                if let Answer::Format(format) = answer {
                    self.format = Some(format);
                    self.action = if format == ImageFormat::Rgba {
                        Action::ReadWidth
                    } else {
                        Action::NextPlacement
                    };
                }
            },
            Action::ReadWidth => {
                if let Answer::Number(width) = answer {
                    self.width = width;
                    self.action = Action::ReadHeight;
                }
            },
            Action::ReadHeight => {
                if let Answer::Number(height) = answer {
                    self.height = height;
                    self.action = Action::ReadData;
                }
            },
            Action::ReadData => {
                if let Answer::DataLen(data_len) = answer {
                    self.data_len = data_len;
                    self.action = if has_all_pixels(data_len, self.width, self.height) {
                        Action::ReadXOffset
                    } else {
                        Action::NextPlacement
                    };
                }
            },
            Action::ReadXOffset => {
                if let Answer::Number(x_offset) = answer {
                    self.x_offset = x_offset;
                    self.action = Action::ReadYOffset;
                }
            },
            Action::ReadYOffset => {
                if let Answer::Number(y_offset) = answer {
                    self.action = Action::Draw(
                        ImageDrawing {
                            width: self.width,
                            height: self.height,
                            info: self.info,
                            x_offset: self.x_offset,
                            y_offset,
                        },
                    );
                }
            },
            Action::Draw(_) => {
                self.action = Action::NextPlacement;
            },
            Action::Finished => {},
            Action::Failed(_) => {},
        }
    }
}

/// Whatever is drawn can be seen, its pixels are RGBA, and all of them are there.
pub proof fn only_whole_visible_images_are_drawn(pass: ImagePass, drawing: ImageDrawing)
    requires
        pass.wf(),
        pass.action == Action::Draw(drawing),
    ensures
        can_be_seen(drawing.info),
        pass.format == Some(ImageFormat::Rgba),
        pass.data_len >= drawing.width * drawing.height * 4,
{
}

/// A placement that is skipped does not end the layer: the next one follows.
pub proof fn skipping_goes_on(pass: ImagePass, answer: Answer)
    requires
        fits(pass, answer),
        answer !is Failed,
        pass.action !is NextPlacement,
    ensures
        pass.after(answer).action !is Finished,
        pass.after(answer).action !is Failed,
{
}

/// The layer that is asked for is the one that the placements are filtered by.
pub proof fn the_layer_is_kept(pass: ImagePass, answer: Answer)
    ensures
        pass.after(answer).layer == pass.layer,
        pass.action is UpdatePlacements && answer is Done ==> pass.after(answer).action
            == Action::SetLayer(pass.layer),
{
}

//---------------------------------------
// A whole pass
//---------------------------------------
/// A placement of the layer, and what there is to read of it and of its image.
pub ghost struct Placement {
    /// The ID of its image.
    pub image_id: u32,
    /// Whether there is such an image.
    pub image_exists: bool,
    /// The rendering geometry of the placement.
    pub info: PlacementRenderInfo,
    /// The pixel format of the image.
    pub format: ImageFormat,
    /// The width of the image in pixels.
    pub width: u32,
    /// The height of the image in pixels.
    pub height: u32,
    /// How many bytes of pixel data the image has.
    pub data_len: usize,
    /// The offset from the left edge of the cell in pixels.
    pub x_offset: u32,
    /// The offset from the top edge of the cell in pixels.
    pub y_offset: u32,
}

impl Placement {
    /// Whether the placement is to be drawn: its image is there, it can be seen, and its pixels are
    /// RGBA and all there.
    pub open spec fn is_drawn(self) -> bool {
        &&& self.image_exists
        &&& can_be_seen(self.info)
        &&& self.format == ImageFormat::Rgba
        &&& holds_pixels(self.data_len, self.width, self.height)
    }

    /// How the placement is drawn.
    pub open spec fn drawing(self) -> ImageDrawing {
        ImageDrawing {
            width: self.width,
            height: self.height,
            info: self.info,
            x_offset: self.x_offset,
            y_offset: self.y_offset,
        }
    }
}

/// The drawings that the placements make: one of each that is to be drawn, in order.
pub open spec fn drawings_of(placements: Seq<Placement>) -> Seq<ImageDrawing>
    decreases placements.len(),
{
    if placements.len() == 0 {
        seq![]
    } else {
        let earlier = drawings_of(placements.drop_last());
        if placements.last().is_drawn() {
            earlier.push(placements.last().drawing())
        } else {
            earlier
        }
    }
}

/// What comes of an action that does not fail, when `started` of the placements were advanced to.
pub open spec fn answer_of(placements: Seq<Placement>, started: nat, action: Action) -> Answer {
    let placement = placements[started - 1];
    match action {
        Action::NextPlacement => Answer::Flag(started < placements.len()),
        Action::ReadImageId => Answer::Number(placement.image_id),
        Action::LookUp(_) => Answer::Flag(placement.image_exists),
        Action::ReadInfo => Answer::Info(placement.info),
        Action::ReadFormat => Answer::Format(placement.format),
        Action::ReadWidth => Answer::Number(placement.width),
        Action::ReadHeight => Answer::Number(placement.height),
        Action::ReadData => Answer::DataLen(placement.data_len),
        Action::ReadXOffset => Answer::Number(placement.x_offset),
        Action::ReadYOffset => Answer::Number(placement.y_offset),
        _ => Answer::Done,
    }
}

/// The pass after the answers, one after the other.
pub open spec fn pass_so_far(layer: Layer, answers: Seq<Answer>) -> ImagePass
    decreases answers.len(),
{
    if answers.len() == 0 {
        ImagePass::start(layer)
    } else {
        pass_so_far(layer, answers.drop_last()).after(answers.last())
    }
}

/// How many placements were advanced to.
pub open spec fn placements_started(layer: Layer, answers: Seq<Answer>) -> nat
    decreases answers.len(),
{
    if answers.len() == 0 {
        0
    } else {
        let started = placements_started(layer, answers.drop_last());
        if pass_so_far(layer, answers.drop_last()).action is NextPlacement && answers.last()
            == Answer::Flag(true) {
            started + 1
        } else {
            started
        }
    }
}

/// The drawings that were asked for, in order.
pub open spec fn drawings_asked(layer: Layer, answers: Seq<Answer>) -> Seq<ImageDrawing>
    decreases answers.len(),
{
    if answers.len() == 0 {
        seq![]
    } else {
        let earlier = drawings_asked(layer, answers.drop_last());
        match pass_so_far(layer, answers).action {
            Action::Draw(drawing) => earlier.push(drawing),
            _ => earlier,
        }
    }
}

/// The answers are ones to the actions of a pass over the placements, one after the other. Any
/// action that can fail may have failed.
pub open spec fn answers_show(
    layer: Layer,
    placements: Seq<Placement>,
    answers: Seq<Answer>,
) -> bool
    decreases answers.len(),
{
    if answers.len() == 0 {
        true
    } else {
        let earlier = answers.drop_last();
        let pass = pass_so_far(layer, earlier);
        &&& answers_show(layer, placements, earlier)
        &&& fits(pass, answers.last())
        &&& answers.last() !is Failed ==> answers.last() == answer_of(
            placements,
            placements_started(layer, earlier),
            pass.action,
        )
    }
}

/// What a pass that has not failed knows of the placement that it is at.
spec fn pass_at(placements: Seq<Placement>, started: nat, pass: ImagePass) -> bool {
    let placement = placements[started - 1];
    match pass.action {
        Action::UpdatePlacements | Action::SetLayer(_) => started == 0,
        Action::NextPlacement => true,
        Action::Finished => started == placements.len(),
        Action::ReadImageId | Action::LookUp(_) => started > 0,
        Action::ReadInfo => started > 0 && placement.image_exists,
        Action::Draw(drawing) => {
            &&& started > 0
            &&& placement.is_drawn()
            &&& drawing == placement.drawing()
        },
        Action::Failed(_) => true,
        _ => {
            &&& started > 0
            &&& placement.image_exists
            &&& pass.info == placement.info
            &&& can_be_seen(placement.info)
            &&& pass.action !is ReadFormat ==> placement.format == ImageFormat::Rgba
            &&& pass.action is ReadHeight || pass.action is ReadData || pass.action is ReadXOffset
                || pass.action is ReadYOffset ==> pass.width == placement.width
            &&& pass.action is ReadData || pass.action is ReadXOffset || pass.action is ReadYOffset
                ==> pass.height == placement.height
            &&& pass.action is ReadXOffset || pass.action is ReadYOffset ==> placement.is_drawn()
            &&& pass.action is ReadYOffset ==> pass.x_offset == placement.x_offset
        },
    }
}

/// How many placements are dealt with, when `started` of them were advanced to.
spec fn dealt_with(started: nat, action: Action) -> int {
    match action {
        Action::UpdatePlacements | Action::SetLayer(_) | Action::NextPlacement | Action::Draw(_)
        | Action::Finished => started as int,
        _ => started - 1,
    }
}

proof fn lemma_pass_so_far(layer: Layer, placements: Seq<Placement>, answers: Seq<Answer>)
    requires
        answers_show(layer, placements, answers),
    ensures
        placements_started(layer, answers) <= placements.len(),
        ({
            let pass = pass_so_far(layer, answers);
            let started = placements_started(layer, answers);
            &&& pass_at(placements, started, pass)
            &&& pass.action !is Failed ==> {
                &&& 0 <= dealt_with(started, pass.action)
                &&& drawings_asked(layer, answers) == drawings_of(
                    placements.take(dealt_with(started, pass.action)),
                )
            }
        }),
        exists|n: int|
            0 <= n <= placements.len() && drawings_asked(layer, answers) == drawings_of(
                #[trigger] placements.take(n),
            ),
    decreases answers.len(),
{
    if answers.len() == 0 {
        assert(placements.take(0).len() == 0);
    } else {
        let earlier = answers.drop_last();
        let then = pass_so_far(layer, earlier);
        let now = pass_so_far(layer, answers);
        let before = placements_started(layer, earlier);
        let started = placements_started(layer, answers);
        lemma_pass_so_far(layer, placements, earlier);
        if now.action !is Failed {
            if before > 0 {
                assert(placements.take(before as int).drop_last() =~= placements.take(before - 1));
                assert(placements.take(before as int).last() == placements[before - 1]);
            }
            assert(drawings_asked(layer, answers) == drawings_of(
                placements.take(dealt_with(started, now.action)),
            ));
        }
    }
}

proof fn lemma_fewer_drawings(placements: Seq<Placement>, n: int)
    requires
        0 <= n <= placements.len(),
    ensures
        drawings_of(placements.take(n)).is_prefix_of(drawings_of(placements)),
    decreases placements.len() - n,
{
    if n < placements.len() {
        lemma_fewer_drawings(placements, n + 1);
        assert(placements.take(n + 1).drop_last() =~= placements.take(n));
        let some = drawings_of(placements.take(n));
        let more = drawings_of(placements.take(n + 1));
        let all = drawings_of(placements);
        assert(more =~= all.take(more.len() as int));
        assert(some =~= more.take(some.len() as int));
        assert(some =~= all.take(some.len() as int));
    } else {
        assert(placements.take(n) =~= placements);
    }
}

/// A pass that is finished has drawn exactly the placements that are to be drawn, once each and in
/// their order, and has been at every placement.
pub proof fn a_finished_pass_drew_what_is_to_be_drawn(
    layer: Layer,
    placements: Seq<Placement>,
    answers: Seq<Answer>,
)
    requires
        answers_show(layer, placements, answers),
        pass_so_far(layer, answers).action is Finished,
    ensures
        drawings_asked(layer, answers) == drawings_of(placements),
        placements_started(layer, answers) == placements.len(),
{
    lemma_pass_so_far(layer, placements, answers);
    assert(placements.take(placements.len() as int) =~= placements);
}

/// At any time, and also when it fails, a pass has drawn a front part of what is to be drawn:
/// nothing else, nothing twice, and nothing out of order.
pub proof fn a_pass_draws_in_order(
    layer: Layer,
    placements: Seq<Placement>,
    answers: Seq<Answer>,
)
    requires
        answers_show(layer, placements, answers),
    ensures
        drawings_asked(layer, answers).is_prefix_of(drawings_of(placements)),
{
    lemma_pass_so_far(layer, placements, answers);
    let n = choose|n: int|
        0 <= n <= placements.len() && drawings_asked(layer, answers) == drawings_of(
            #[trigger] placements.take(n),
        );
    lemma_fewer_drawings(placements, n);
}

/// Whether a placement is seen depends on five of its fields alone, wherever it stands and whatever
/// part of its image it shows: it is seen if the engine reports it as visible and it has a width and
/// a height in pixels and in cells, and it is not if any one of these is missing.
pub proof fn five_fields_make_a_placement_seen(
    info: PlacementRenderInfo,
    viewport_col: i32,
    viewport_row: i32,
    source_x: u32,
    source_y: u32,
    source_width: u32,
    source_height: u32,
)
    ensures
        can_be_seen(info) == can_be_seen(
            PlacementRenderInfo {
                viewport_col,
                viewport_row,
                source_x,
                source_y,
                source_width,
                source_height,
                ..info
            },
        ),
        info.viewport_visible && info.pixel_width >= 1 && info.pixel_height >= 1 && info.grid_cols
            >= 1 && info.grid_rows >= 1 ==> can_be_seen(info),
        !can_be_seen(PlacementRenderInfo { viewport_visible: false, ..info }),
        !can_be_seen(PlacementRenderInfo { pixel_width: 0, ..info }),
        !can_be_seen(PlacementRenderInfo { pixel_height: 0, ..info }),
        !can_be_seen(PlacementRenderInfo { grid_cols: 0, ..info }),
        !can_be_seen(PlacementRenderInfo { grid_rows: 0, ..info }),
{
}

/// The bytes hold all pixels of an image exactly if the four bytes of every pixel are among them,
/// row by row from the top left.
pub proof fn all_pixels_are_in_the_data(len: usize, width: u32, height: u32)
    ensures
        holds_pixels(len, width, height) <==> forall|x: int, y: int|
            0 <= x < width && 0 <= y < height ==> #[trigger] pixel_end(width, x, y) <= len,
{
    if holds_pixels(len, width, height) {
        assert forall|x: int, y: int| 0 <= x < width && 0 <= y < height implies #[trigger] pixel_end(
            width,
            x,
            y,
        ) <= len by {
            assert(y * width + x + 1 <= width * height) by (nonlinear_arith)
                requires
                    0 <= x < width,
                    0 <= y < height,
            ;
        }
    }
    if forall|x: int, y: int|
        0 <= x < width && 0 <= y < height ==> #[trigger] pixel_end(width, x, y) <= len {
        if width > 0 && height > 0 {
            assert(pixel_end(width, width - 1, height - 1) <= len);
            assert((height - 1) * width + (width - 1) + 1 == width * height) by (nonlinear_arith);
        } else {
            assert(width * height == 0) by (nonlinear_arith)
                requires
                    width == 0 || height == 0,
            ;
        }
    }
}

/// Where the bytes of the pixel at a column and a row end.
pub open spec fn pixel_end(width: u32, x: int, y: int) -> int {
    (y * width + x) * 4 + 4
}

/// A placement is drawn exactly if its image is there, it is visible and takes up space, and its
/// pixels are RGBA and all there; and what is drawn is the placement as it is: at its place, with the
/// size of its image, and with its own offsets.
pub proof fn a_placement_is_drawn_as_it_is(placement: Placement)
    ensures
        placement.is_drawn() <==> {
            &&& placement.image_exists
            &&& placement.info.viewport_visible
            &&& placement.info.pixel_width >= 1
            &&& placement.info.pixel_height >= 1
            &&& placement.info.grid_cols >= 1
            &&& placement.info.grid_rows >= 1
            &&& placement.format == ImageFormat::Rgba
            &&& placement.data_len >= 4 * (placement.width * placement.height)
        },
        placement.drawing().info == placement.info,
        placement.drawing().width == placement.width,
        placement.drawing().height == placement.height,
        placement.drawing().x_offset == placement.x_offset,
        placement.drawing().y_offset == placement.y_offset,
{
}

/// The drawings of two parts of a layer are those of the whole, and a placement makes one drawing or
/// none: what is drawn of a placement does not depend on the others.
pub proof fn placements_are_drawn_one_by_one(front: Seq<Placement>, placement: Placement)
    ensures
        drawings_of(Seq::empty()).len() == 0,
        placement.is_drawn() ==> drawings_of(front.push(placement)) == drawings_of(front).push(
            placement.drawing(),
        ),
        !placement.is_drawn() ==> drawings_of(front.push(placement)) == drawings_of(front),
{
    assert(front.push(placement).drop_last() =~= front);
}

/// The image that is looked up is the one of the placement, and what is drawn has the geometry and
/// the size that were read for it: nothing that was read is changed on the way.
pub proof fn what_is_read_is_kept(pass: ImagePass, answer: Answer, number: u32)
    ensures
        pass.action is ReadImageId && answer == Answer::Number(number) ==> pass.after(answer).action
            == Action::LookUp(number),
        pass.action is ReadWidth && answer == Answer::Number(number) ==> pass.after(answer).width
            == number,
        pass.action is ReadHeight && answer == Answer::Number(number) ==> pass.after(answer).height
            == number,
        pass.action is ReadXOffset && answer == Answer::Number(number) ==> pass.after(
            answer,
        ).x_offset == number,
        pass.action is ReadYOffset && answer == Answer::Number(number) ==> {
            &&& pass.after(answer).action is Draw
            &&& pass.after(answer).action->Draw_0.y_offset == number
            &&& pass.after(answer).action->Draw_0.x_offset == pass.x_offset
            &&& pass.after(answer).action->Draw_0.width == pass.width
            &&& pass.after(answer).action->Draw_0.height == pass.height
            &&& pass.after(answer).action->Draw_0.info == pass.info
        },
{
}

} // verus!
