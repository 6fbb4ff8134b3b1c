use libghostty_vt::error::Error;
use libghostty_vt::kitty::graphics::{
    decode_for_engine, set_png_decoder, Compression, DecodePng, DecodedImage, Graphics, GridSize,
    Image, ImageData, ImageFormat, InstalledDecoder, Layer, PixelData, PixelSize, PlacementData,
    PlacementIterator, PlacementIteratorOption, PlacementRenderInfo, SourceRect, ViewportPos,
};
use libghostty_vt::memory::NewReply;
use libghostty_vt::reply::Reply;
use libghostty_vt::screen::{GridRef, Selection};
use libghostty_vt::sys::{self, deliver, set_decode_png, SysImage, SysOption, VTable};
use libghostty_vt::terminal::{Options, Terminal, TerminalData, TerminalOption};

fn terminal() -> Terminal {
    let opts = Options { cols: 80, rows: 24, max_scrollback: 0 };
    Terminal::new(opts, |_, _| NewReply { code: 0, raw: 1 }).unwrap()
}

fn graphics() -> Graphics {
    terminal()
        .kitty_graphics(|raw, tag| {
            assert_eq!((raw, tag), (1, TerminalData::KittyGraphics));
            Reply { code: 0, value: 2 }
        })
        .unwrap()
}

fn image() -> Image {
    graphics()
        .image(40, |raw, id| {
            assert_eq!((raw, id), (2, 40));
            3
        })
        .unwrap()
}

#[test]
fn a_storage_or_an_image_may_be_missing() {
    assert_eq!(graphics().as_raw(), 2);
    let none = terminal().kitty_graphics(|_, _| Reply { code: -4, value: 2 });
    assert_eq!(none.unwrap_err(), Error::InvalidValue);
    let null = terminal().kitty_graphics(|_, _| Reply { code: 0, value: 0 });
    assert_eq!(null.unwrap_err(), Error::OutOfMemory);
    assert_eq!(image().as_raw(), 3);
    assert!(graphics().image(41, |_, _| 0).is_none());
}

#[test]
fn kitty_settings_are_read_and_set() {
    let mut term = terminal();
    let yes = |tag: TerminalData| {
        move |raw: usize, asked: TerminalData| {
            assert_eq!((raw, asked), (1, tag));
            Reply { code: 0, value: true }
        }
    };
    assert_eq!(
        term.kitty_image_storage_limit(|_, tag| {
            assert_eq!(tag, TerminalData::KittyImageStorageLimit);
            Reply { code: 0, value: 1 << 40 }
        }),
        Ok(1 << 40)
    );
    assert_eq!(
        term.is_kitty_image_from_file_allowed(yes(TerminalData::KittyImageMediumFile)),
        Ok(true)
    );
    assert_eq!(
        term.is_kitty_image_from_temp_file_allowed(yes(TerminalData::KittyImageMediumTempFile)),
        Ok(true)
    );
    assert_eq!(
        term.is_kitty_image_from_shared_mem_allowed(yes(TerminalData::KittyImageMediumSharedMem)),
        Ok(true)
    );
    let put = |option: TerminalOption| {
        move |raw: usize, given: TerminalOption, value: bool| {
            assert_eq!((raw, given, value), (1, option, true));
            0
        }
    };
    assert_eq!(
        term.set_kitty_image_from_file_allowed(true, put(TerminalOption::KittyImageMediumFile)),
        Ok(())
    );
    assert_eq!(
        term.set_kitty_image_from_temp_file_allowed(
            true,
            put(TerminalOption::KittyImageMediumTempFile)
        ),
        Ok(())
    );
    assert_eq!(
        term.set_kitty_image_from_shared_mem_allowed(
            true,
            put(TerminalOption::KittyImageMediumSharedMem)
        ),
        Ok(())
    );
    assert_eq!(
        term.set_kitty_image_storage_limit(7, |_, option, value| {
            assert_eq!((option, value), (TerminalOption::KittyImageStorageLimit, 7));
            -1
        }),
        Err(Error::OutOfMemory)
    );
    assert_eq!(
        term.set_apc_max_bytes_kitty(None, |_, option, value| {
            assert_eq!((option, value), (TerminalOption::ApcMaxBytesKitty, None));
            0
        }),
        Ok(())
    );
}

#[test]
fn images_are_asked_by_tag() {
    let image = image();
    let number = |tag: ImageData, value: u32| {
        move |raw: usize, asked: ImageData| {
            assert_eq!((raw, asked), (3, tag));
            Reply { code: 0, value }
        }
    };
    assert_eq!(image.id(number(ImageData::Id, 40)), Ok(40));
    assert_eq!(image.number(number(ImageData::Number, 41)), Ok(41));
    assert_eq!(image.width(number(ImageData::Width, 42)), Ok(42));
    assert_eq!(image.height(number(ImageData::Height, 43)), Ok(43));
    assert_eq!(image.format(number(ImageData::Format, 1)), Ok(ImageFormat::Rgba));
    assert_eq!(image.format(number(ImageData::Format, 9)), Err(Error::InvalidValue));
    assert_eq!(
        image.compression(number(ImageData::Compression, 0)),
        Ok(Compression::Uncompressed)
    );
    assert_eq!(
        image.compression(number(ImageData::Compression, 1)),
        Ok(Compression::ZlibDeflate)
    );
    assert_eq!(
        image.compression(number(ImageData::Compression, 2)),
        Err(Error::InvalidValue)
    );
}

#[test]
fn pixel_data_is_a_place_and_a_length() {
    let size = |tag: ImageData, code: i32, value: usize| {
        move |_: usize, asked: ImageData| {
            assert_eq!(asked, tag);
            Reply { code, value }
        }
    };
    let ptr = |code| size(ImageData::DataPtr, code, 0x800);
    let len = |code| size(ImageData::DataLen, code, 16);
    assert_eq!(image().data(ptr(0), len(0)), Ok(PixelData { ptr: 0x800, len: 16 }));
    assert_eq!(image().data(ptr(-1), len(0)), Err(Error::OutOfMemory));
    assert_eq!(image().data(ptr(0), len(-2)), Err(Error::InvalidValue));
}

#[test]
fn image_enums_have_numbers() {
    for code in 0..5 {
        assert_eq!(ImageFormat::from_code(code).unwrap().code(), code);
    }
    assert!(ImageFormat::from_code(5).is_err());
    for code in 0..4 {
        assert_eq!(Layer::from_code(code).unwrap().code(), code);
    }
    assert!(Layer::from_code(4).is_err());
    assert_eq!(Layer::All.code(), 0);
    assert_eq!(Layer::AboveText.code(), 3);
}

#[test]
fn placements_are_walked() {
    let mut iter = PlacementIterator::new(|_| NewReply { code: 0, raw: 5 }).unwrap();
    assert_eq!(iter.update(&graphics(), |_, _| -2).unwrap_err(), Error::InvalidValue);
    let mut placements = iter.update(&graphics(), |_, _| 0).unwrap();
    let res = placements.set_layer(Layer::BelowText, |raw, option, layer| {
        assert_eq!((raw, option, layer), (5, PlacementIteratorOption::Layer, 2));
        0
    });
    assert_eq!(res, Ok(()));
    let placement = placements.next(|raw| raw == 5).unwrap();
    let number = |tag: PlacementData| {
        move |raw: usize, asked: PlacementData| {
            assert_eq!((raw, asked), (5, tag));
            Reply { code: 0, value: 17 }
        }
    };
    assert_eq!(placement.image_id(number(PlacementData::ImageId)), Ok(17));
    assert_eq!(placement.placement_id(number(PlacementData::PlacementId)), Ok(17));
    assert_eq!(placement.x_offset(number(PlacementData::XOffset)), Ok(17));
    assert_eq!(placement.y_offset(number(PlacementData::YOffset)), Ok(17));
    assert_eq!(placement.source_x(number(PlacementData::SourceX)), Ok(17));
    assert_eq!(placement.source_y(number(PlacementData::SourceY)), Ok(17));
    assert_eq!(placement.source_width(number(PlacementData::SourceWidth)), Ok(17));
    assert_eq!(placement.source_height(number(PlacementData::SourceHeight)), Ok(17));
    assert_eq!(placement.columns(number(PlacementData::Columns)), Ok(17));
    assert_eq!(placement.rows(number(PlacementData::Rows)), Ok(17));
    assert_eq!(
        placement.z(|_, tag| {
            assert_eq!(tag, PlacementData::Z);
            Reply { code: 0, value: -3 }
        }),
        Ok(-3)
    );
    assert_eq!(
        placement.is_virtual(|_, tag| {
            assert_eq!(tag, PlacementData::IsVirtual);
            Reply { code: 0, value: true }
        }),
        Ok(true)
    );
    assert!(placements.next(|_| false).is_none());
}

#[test]
fn placements_have_geometry() {
    let mut iter = PlacementIterator::new(|_| NewReply { code: 0, raw: 5 }).unwrap();
    let placement = iter.update(&graphics(), |_, _| 0).unwrap();
    let (term, image) = (terminal(), image());
    fn three<T>(value: T) -> impl FnOnce(usize, usize, usize) -> Reply<T> {
        move |placement, image, terminal| {
            assert_eq!((placement, image, terminal), (5, 3, 1));
            Reply { code: 0, value }
        }
    }
    let pixels = PixelSize { width: 10, height: 20 };
    assert_eq!(placement.pixel_size(&image, &term, three(pixels)), Ok(pixels));
    let cells = GridSize { cols: 2, rows: 1 };
    assert_eq!(placement.grid_size(&image, &term, three(cells)), Ok(cells));
    let at = ViewportPos { col: -1, row: 4 };
    assert_eq!(placement.viewport_pos(&image, &term, three(at)), Ok(Some(at)));
    assert_eq!(
        placement.viewport_pos(&image, &term, |_, _, _| Reply { code: -4, value: at }),
        Ok(None)
    );
    let source = SourceRect { x: 1, y: 2, width: 3, height: 4 };
    assert_eq!(
        placement.source_rect(&image, |placement, image| {
            assert_eq!((placement, image), (5, 3));
            Reply { code: 0, value: source }
        }),
        Ok(source)
    );
    let corner = GridRef { node: 9, x: 0, y: 0 };
    let rect = Selection { start: corner, end: corner, rectangle: true };
    assert_eq!(placement.rect(&image, &term, three(rect)), Ok(rect));
    let info = PlacementRenderInfo {
        pixel_width: 1,
        pixel_height: 2,
        grid_cols: 3,
        grid_rows: 4,
        viewport_col: -5,
        viewport_row: 6,
        viewport_visible: true,
        source_x: 7,
        source_y: 8,
        source_width: 9,
        source_height: 10,
    };
    assert_eq!(placement.placement_render_info(&image, &term, three(info)), Ok(info));
}

struct Painter {
    calls: u32,
}

impl DecodePng for Painter {
    fn decode_png(&mut self, data: &[u8]) -> Option<DecodedImage> {
        self.calls += 1;
        let first = *data.first()?;
        Some(DecodedImage { width: 1, height: 1, data: vec![first; 4] })
    }
}

#[test]
fn an_installed_decoder_serves_the_engine() {
    let mut installed = InstalledDecoder::new();
    assert_eq!(decode_for_engine::<Painter>(&mut installed, b"x", |_| 1), None);
    let res = set_png_decoder(&mut installed, Some(Painter { calls: 0 }), |option, callable| {
        assert_eq!((option, callable), (SysOption::DecodePng, true));
        0
    });
    assert_eq!(res, Ok(()));
    let out = decode_for_engine(&mut installed, b"x", |pixels| {
        assert_eq!(pixels, b"xxxx");
        0x900
    });
    assert_eq!(out, Some(SysImage { width: 1, height: 1, data: 0x900, data_len: 4 }));
    assert_eq!(decode_for_engine(&mut installed, b"", |_| 0x900), None);
    assert_eq!(decode_for_engine(&mut installed, b"x", |_| 0), None);
    let res = set_png_decoder(&mut installed, None, |_, callable| {
        assert!(!callable);
        -2
    });
    assert_eq!(res, Err(Error::InvalidValue));
    assert_eq!(decode_for_engine(&mut installed, b"x", |_| 1), None);
}

fn solid(data: &[u8]) -> Option<sys::Image> {
    let first = *data.first()?;
    Some(sys::Image { width: 2, height: 1, data: vec![first; 8] })
}

#[test]
fn an_installed_function_serves_the_engine() {
    let mut vtable = VTable::new();
    assert_eq!(sys::decode_for_engine(&vtable, b"q", |_| 1), None);
    let decode: fn(&[u8]) -> Option<sys::Image> = solid;
    assert_eq!(set_decode_png(&mut vtable, Some(decode), |_, callable| i32::from(!callable)), Ok(()));
    assert_eq!(
        sys::decode_for_engine(&vtable, b"q", |pixels| pixels.len()),
        Some(SysImage { width: 2, height: 1, data: 8, data_len: 8 })
    );
    assert_eq!(sys::decode_for_engine(&vtable, b"", |_| 1), None);
    assert_eq!(set_decode_png(&mut vtable, None, |_, callable| i32::from(callable)), Ok(()));
    assert_eq!(sys::decode_for_engine(&vtable, b"q", |_| 1), None);
}

#[test]
fn an_image_without_memory_is_dropped() {
    let image = || Some(sys::Image { width: 1, height: 1, data: vec![1, 2, 3, 4] });
    assert_eq!(deliver(image(), |_| 0), None);
    assert_eq!(deliver(None, |_| unreachable!()), None);
    assert_eq!(
        deliver(image(), |_| 64),
        Some(SysImage { width: 1, height: 1, data: 64, data_len: 4 })
    );
}

#[test]
fn kinds_have_defaults() {
    assert_eq!(Layer::default(), Layer::All);
    assert_eq!(ImageFormat::default(), ImageFormat::Rgb);
    assert_eq!(Compression::default(), Compression::Uncompressed);
}
