//! What the emulator tells the engine and the programs in it about itself.
use crate::kitty::graphics::{decoded_parts, DecodePng, DecodedImage};
use crate::terminal::{
    ConformanceLevel, DeviceAttributeFeature, DeviceAttributes, DeviceType, Options,
    PrimaryDeviceAttributes, SecondaryDeviceAttributes, SizeReportSize, TertiaryDeviceAttributes,
};
use vstd::prelude::*;

verus! {

/// How many lines of scrollback are kept.
pub const SCROLLBACK_LINES: usize = 1000;

/// How many bytes of Kitty images are stored, 64 MiB.
pub const IMAGE_STORAGE_LIMIT: u64 = 0x400_0000;

/// The options of the emulator's terminal for a window of the given size in cells.
pub fn terminal_options(cols: u16, rows: u16) -> (res: Options)
    ensures
        res == (Options { cols, rows, max_scrollback: SCROLLBACK_LINES }),
{
    Options { cols, rows, max_scrollback: SCROLLBACK_LINES }
}

/// The answer to a device attributes query: a VT220 with 132 columns, selective erase and color,
/// version 1, without a ROM cartridge and with unit 0.
pub fn device_attributes() -> (res: DeviceAttributes)
    ensures
        res.primary.conformance_level == ConformanceLevel::VT220,
        res.primary.num_features == 3,
        res.primary.features@.take(3) == seq![
            DeviceAttributeFeature::COLUMNS_132,
            DeviceAttributeFeature::SELECTIVE_ERASE,
            DeviceAttributeFeature::ANSI_COLOR,
        ],
        forall|i: int| 3 <= i < 64 ==> res.primary.features@[i] == 0,
        res.secondary == (SecondaryDeviceAttributes {
            device_type: DeviceType(DeviceType::VT220),
            firmware_version: 1,
            rom_cartridge: 0,
        }),
        res.tertiary == (TertiaryDeviceAttributes { unit_id: 0 }),
{
    let features: [DeviceAttributeFeature; 3] = [
        DeviceAttributeFeature(DeviceAttributeFeature::COLUMNS_132),
        DeviceAttributeFeature(DeviceAttributeFeature::SELECTIVE_ERASE),
        DeviceAttributeFeature(DeviceAttributeFeature::ANSI_COLOR),
    ];
    let primary = PrimaryDeviceAttributes::new(
        ConformanceLevel(ConformanceLevel::VT220),
        features,
    );
    assert(primary.features@[0] == features@[0].0);
    assert(primary.features@[1] == features@[1].0);
    assert(primary.features@[2] == features@[2].0);
    assert(primary.features@.take(3) =~= seq![
        DeviceAttributeFeature::COLUMNS_132,
        DeviceAttributeFeature::SELECTIVE_ERASE,
        DeviceAttributeFeature::ANSI_COLOR,
    ]);
    DeviceAttributes {
        primary,
        secondary: SecondaryDeviceAttributes {
            device_type: DeviceType(DeviceType::VT220),
            firmware_version: 1,
            rom_cartridge: 0,
        },
        tertiary: TertiaryDeviceAttributes { unit_id: 0 },
    }
}

/// The answer to a size query, for a grid of the given size and cells of the given size in pixels.
pub fn size_report(cols: u16, rows: u16, cell_width: u32, cell_height: u32) -> (res: SizeReportSize)
    ensures
        res == (SizeReportSize { rows, columns: cols, cell_width, cell_height }),
{
    SizeReportSize { rows, columns: cols, cell_width, cell_height }
}

/// The PNG image `data` as `macroquad` decodes it: its width, its height, and its RGBA pixels.
pub uninterp spec fn macroquad_png(data: Seq<u8>) -> Option<(u16, u16, Seq<u8>)>;

/// An image that `macroquad` decoded.
#[derive(Debug)]
struct MacroquadImage {
    width: u16,
    height: u16,
    bytes: Vec<u8>,
}

spec fn macroquad_parts(image: Option<MacroquadImage>) -> Option<(u16, u16, Seq<u8>)> {
    match image {
        Some(image) => Some((image.width, image.height, image.bytes@)),
        None => None,
    }
}

/// Decode a PNG image with `macroquad`.
///
/// This is `Image::from_file_with_format` of `macroquad::texture` with the PNG format, which fails
/// on data that is no PNG image. Two things are claimed of its result: that it depends on the data
/// alone, and that there are four bytes for every pixel. The two dimensions are cut down to 16 bits,
/// so that a larger image has more bytes than they say.
#[verifier::external_body]
fn decode_with_macroquad(data: &[u8]) -> (res: Option<MacroquadImage>)
    ensures
        macroquad_parts(res) == macroquad_png(data@),
        res matches Some(image) ==> image.width * image.height * 4 <= image.bytes@.len(),
{
    let format = Some(macroquad::prelude::ImageFormat::Png);
    let image = macroquad::texture::Image::from_file_with_format(data, format).ok()?;
    Some(MacroquadImage { width: image.width, height: image.height, bytes: image.bytes })
}

/// A decoder that decodes raw PNG data into 8-bit RGBA pixels using `macroquad`'s PNG decoder.
#[derive(Debug)]
pub struct PngDecoder;

impl DecodePng for PngDecoder {
    open spec fn decodes(
        &self,
        data: Seq<u8>,
        image: Option<(u32, u32, Seq<u8>)>,
        after: &Self,
    ) -> bool {
        image == widened(macroquad_png(data)) && after == self
    }

    fn decode_png(&mut self, data: &[u8]) -> (res: Option<DecodedImage>)
        ensures
            decoded_parts(res) == widened(macroquad_png(data@)),
            res matches Some(image) ==> image.width * image.height * 4 <= image.data@.len(),
    {
        match decode_with_macroquad(data) {
            Some(image) => Some(
                DecodedImage {
                    width: image.width as u32,
                    height: image.height as u32,
                    data: image.bytes,
                },
            ),
            None => None,
        }
    }
}

/// An image with its dimensions as wider numbers.
pub open spec fn widened(image: Option<(u16, u16, Seq<u8>)>) -> Option<(u32, u32, Seq<u8>)> {
    match image {
        Some((width, height, pixels)) => Some((width as u32, height as u32, pixels)),
        None => None,
    }
}

/// An image comes out as `macroquad` decoded it: with its width as the width, its height as the
/// height, and its pixels unchanged; and there is one exactly if there was one.
pub proof fn decoded_images_are_handed_on(image: Option<(u16, u16, Seq<u8>)>)
    ensures
        widened(image) is Some <==> image is Some,
        image matches Some(decoded) ==> {
            let out = widened(image)->0;
            &&& out.0 == decoded.0
            &&& out.1 == decoded.1
            &&& out.2 == decoded.2
        },
{
}

} // verus!
