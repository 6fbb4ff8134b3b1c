use libghostty_vt::error::Error;
use libghostty_vt::ghostling::images::{
    has_all_pixels, is_seen, Action, Answer, ImageDrawing, ImagePass,
};
use libghostty_vt::kitty::graphics::{ImageFormat, Layer, PlacementRenderInfo};

const INFO: PlacementRenderInfo = PlacementRenderInfo {
    pixel_width: 16,
    pixel_height: 16,
    grid_cols: 2,
    grid_rows: 1,
    viewport_col: 3,
    viewport_row: -1,
    viewport_visible: true,
    source_x: 0,
    source_y: 0,
    source_width: 4,
    source_height: 2,
};

/// A pass that was asked for the placement's geometry.
fn at_info() -> ImagePass {
    let mut pass = ImagePass::new(Layer::AboveText);
    assert_eq!(pass.action, Action::UpdatePlacements);
    pass.step(Answer::Done);
    assert_eq!(pass.action, Action::SetLayer(Layer::AboveText));
    pass.step(Answer::Done);
    assert_eq!(pass.action, Action::NextPlacement);
    pass.step(Answer::Flag(true));
    assert_eq!(pass.action, Action::ReadImageId);
    pass.step(Answer::Number(40));
    assert_eq!(pass.action, Action::LookUp(40));
    pass.step(Answer::Flag(true));
    assert_eq!(pass.action, Action::ReadInfo);
    pass
}

/// A pass that was asked for the image's data.
fn at_data() -> ImagePass {
    let mut pass = at_info();
    pass.step(Answer::Info(INFO));
    assert_eq!(pass.action, Action::ReadFormat);
    pass.step(Answer::Format(ImageFormat::Rgba));
    assert_eq!(pass.action, Action::ReadWidth);
    pass.step(Answer::Number(4));
    assert_eq!(pass.action, Action::ReadHeight);
    pass.step(Answer::Number(2));
    assert_eq!(pass.action, Action::ReadData);
    pass
}

#[test]
fn a_whole_visible_image_is_drawn() {
    let mut pass = at_data();
    pass.step(Answer::DataLen(32));
    assert_eq!(pass.action, Action::ReadXOffset);
    pass.step(Answer::Number(5));
    assert_eq!(pass.action, Action::ReadYOffset);
    pass.step(Answer::Number(6));
    assert_eq!(
        pass.action,
        Action::Draw(ImageDrawing { width: 4, height: 2, info: INFO, x_offset: 5, y_offset: 6 })
    );
    pass.step(Answer::Done);
    assert_eq!(pass.action, Action::NextPlacement);
    pass.step(Answer::Flag(false));
    assert_eq!(pass.action, Action::Finished);
    assert_eq!(pass.layer, Layer::AboveText);
}

#[test]
fn missing_images_are_skipped() {
    let mut pass = ImagePass::new(Layer::BelowBg);
    for answer in [Answer::Done, Answer::Done, Answer::Flag(true), Answer::Number(1)] {
        pass.step(answer);
    }
    pass.step(Answer::Flag(false));
    assert_eq!(pass.action, Action::NextPlacement);
}

#[test]
fn invisible_images_are_skipped() {
    for info in [
        PlacementRenderInfo { viewport_visible: false, ..INFO },
        PlacementRenderInfo { pixel_width: 0, ..INFO },
        PlacementRenderInfo { pixel_height: 0, ..INFO },
        PlacementRenderInfo { grid_cols: 0, ..INFO },
        PlacementRenderInfo { grid_rows: 0, ..INFO },
    ] {
        assert!(!is_seen(&info));
        let mut pass = at_info();
        pass.step(Answer::Info(info));
        assert_eq!(pass.action, Action::NextPlacement);
    }
    assert!(is_seen(&INFO));
}

#[test]
fn images_in_other_formats_are_skipped() {
    for format in [
        ImageFormat::Rgb,
        ImageFormat::Png,
        ImageFormat::GrayAlpha,
        ImageFormat::Gray,
    ] {
        let mut pass = at_info();
        pass.step(Answer::Info(INFO));
        pass.step(Answer::Format(format));
        assert_eq!(pass.action, Action::NextPlacement);
    }
}

#[test]
fn images_without_all_pixels_are_skipped() {
    let mut pass = at_data();
    pass.step(Answer::DataLen(31));
    assert_eq!(pass.action, Action::NextPlacement);
    assert!(has_all_pixels(32, 4, 2));
    assert!(has_all_pixels(33, 4, 2));
    assert!(!has_all_pixels(31, 4, 2));
    assert!(has_all_pixels(0, 0, 7));
    assert!(!has_all_pixels(0, 0x3fff_ffff, 1));
}

#[test]
fn an_error_ends_a_layer() {
    let mut pass = at_data();
    pass.step(Answer::Failed(Error::InvalidValue));
    assert_eq!(pass.action, Action::Failed(Error::InvalidValue));
    let mut pass = ImagePass::new(Layer::BelowBg);
    pass.step(Answer::Failed(Error::OutOfMemory));
    assert_eq!(pass.action, Action::Failed(Error::OutOfMemory));
}

/// A placement, and what there is to read of it and of its image.
#[derive(Clone, Copy)]
struct Shown {
    id: u32,
    exists: bool,
    info: PlacementRenderInfo,
    format: ImageFormat,
    data_len: usize,
}

const WHOLE: Shown = Shown {
    id: 1,
    exists: true,
    info: INFO,
    format: ImageFormat::Rgba,
    data_len: 32,
};

/// The images that a pass draws, and the action that it ends with.
fn draw(placements: &[Shown], failing: Option<u32>) -> (Vec<u32>, Action) {
    let mut pass = ImagePass::new(Layer::BelowText);
    let mut started = 0;
    let mut drawn = Vec::new();
    loop {
        let at = if started > 0 { placements[started - 1] } else { WHOLE };
        pass.step(match pass.action {
            Action::UpdatePlacements => Answer::Done,
            Action::SetLayer(layer) => {
                assert_eq!(layer, Layer::BelowText);
                Answer::Done
            }
            Action::NextPlacement => {
                let more = started < placements.len();
                if more {
                    started += 1;
                }
                Answer::Flag(more)
            }
            Action::ReadImageId if failing == Some(at.id) => Answer::Failed(Error::OutOfMemory),
            Action::ReadImageId => Answer::Number(at.id),
            Action::LookUp(id) => {
                assert_eq!(id, at.id);
                Answer::Flag(at.exists)
            }
            Action::ReadInfo => Answer::Info(at.info),
            Action::ReadFormat => Answer::Format(at.format),
            Action::ReadWidth => Answer::Number(4),
            Action::ReadHeight => Answer::Number(2),
            Action::ReadData => Answer::DataLen(at.data_len),
            Action::ReadXOffset => Answer::Number(at.id),
            Action::ReadYOffset => Answer::Number(at.id + 1),
            Action::Draw(drawing) => {
                assert_eq!((drawing.width, drawing.height, drawing.info), (4, 2, at.info));
                assert_eq!((drawing.x_offset, drawing.y_offset), (at.id, at.id + 1));
                assert_eq!(pass.format, Some(ImageFormat::Rgba));
                drawn.push(at.id);
                Answer::Done
            }
            Action::Finished | Action::Failed(_) => return (drawn, pass.action),
        });
    }
}

#[test]
fn a_pass_draws_what_is_to_be_drawn_once_and_in_order() {
    let hidden = PlacementRenderInfo { viewport_visible: false, ..INFO };
    let placements = [
        Shown { id: 10, ..WHOLE },
        Shown { id: 11, exists: false, ..WHOLE },
        Shown { id: 12, ..WHOLE },
        Shown { id: 13, info: hidden, ..WHOLE },
        Shown { id: 14, format: ImageFormat::Rgb, ..WHOLE },
        Shown { id: 15, data_len: 31, ..WHOLE },
        Shown { id: 16, data_len: 64, ..WHOLE },
    ];
    assert_eq!(draw(&placements, None), (vec![10, 12, 16], Action::Finished));
    assert_eq!(draw(&[], None), (vec![], Action::Finished));
    assert_eq!(draw(&placements[1..2], None), (vec![], Action::Finished));
    // A pass that fails has drawn the front part.
    assert_eq!(
        draw(&placements, Some(14)),
        (vec![10, 12], Action::Failed(Error::OutOfMemory))
    );
}
