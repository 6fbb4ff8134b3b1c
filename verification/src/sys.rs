//! Runtime-swappable functions for operations that depend on outside implementations (e.g. image
//! decoding).
//!
//! These are settings that must be configured at startup before any terminal functionality that
//! depends on them is used. Setting a PNG decoder, for example, enables PNG image support in the
//! Kitty Graphics Protocol. Passing `None` clears the implementation and disables the feature.
use crate::error::{from_result, outcome, Result};
use crate::png_image::{decode, parts, png_image};
use vstd::prelude::*;

verus! {

/// What can be set for the whole process.
#[derive(Clone, Copy, Debug, PartialEq, Eq, Structural)]
pub enum SysOption {
    /// The function that decodes PNG images.
    DecodePng,
}

/// Result of decoding an image: 8-bit RGBA pixels.
#[derive(Debug)]
pub struct Image {
    /// Image width in pixels.
    pub width: u32,
    /// Image height in pixels.
    pub height: u32,
    /// The pixels, row by row.
    pub data: Vec<u8>,
}

/// A decoded image as the engine takes it.
///
/// The engine takes ownership of the pixels and gives them back to its allocator.
#[derive(Clone, Copy, Debug, PartialEq, Eq, Structural)]
pub struct SysImage {
    /// Image width in pixels.
    pub width: u32,
    /// Image height in pixels.
    pub height: u32,
    /// The address of the first byte of the pixels.
    pub data: usize,
    /// How many bytes there are.
    pub data_len: usize,
}

/// `res` is what handing `image` over to the engine comes to: nothing if there is no image or no
/// memory for its pixels, and else the image with the address that `place` put the pixels at.
pub open spec fn delivered<F: FnOnce(&Vec<u8>) -> usize>(
    place: F,
    image: Option<Image>,
    res: Option<SysImage>,
) -> bool {
    match image {
        Some(image) => exists|addr: usize| #[trigger]
            place.ensures((&image.data,), addr) && res == if addr == 0 {
                None
            } else {
                Some(
                    SysImage {
                        width: image.width,
                        height: image.height,
                        data: addr,
                        data_len: image.data@.len() as usize,
                    },
                )
            },
        None => res is None,
    }
}

/// Hand a decoded image over to the engine.
///
/// `place` copies the pixels to memory of the engine's allocator and returns their address, null
/// if there is no memory.
pub fn deliver<F: FnOnce(&Vec<u8>) -> usize>(
    image: Option<Image>,
    place: F,
) -> (res: Option<SysImage>)
    requires
        image matches Some(image) ==> place.requires((&image.data,)),
    ensures
        delivered(place, image, res),
{
    match image {
        Some(image) => {
            let addr: usize = place(&image.data);
            if addr == 0 {
                None
            } else {
                Some(
                    SysImage {
                        width: image.width,
                        height: image.height,
                        data: addr,
                        data_len: image.data.len(),
                    },
                )
            }
        },
        None => None,
    }
}

/// The functions that are installed.
#[derive(Debug)]
pub struct VTable<F> {
    decode_png: Option<F>,
}

impl<F> VTable<F> {
    /// The PNG decode function that is installed.
    pub closed spec fn decode_png(&self) -> Option<F> {
        self.decode_png
    }

    /// No functions.
    pub fn new() -> (res: Self)
        ensures
            res.decode_png() is None,
    {
        VTable { decode_png: None }
    }
}

/// A function that decodes PNG images, for [`set_decode_png`].
pub trait DecodePngFn: Fn(&[u8]) -> Option<Image> {

}

impl<F: Fn(&[u8]) -> Option<Image>> DecodePngFn for F {

}

/// Set the PNG decode function.
///
/// When set, the terminal can accept PNG images via the Kitty Graphics Protocol. When cleared
/// (`None` value), PNG decoding is unsupported and PNG image data will be rejected.
///
/// `set` tells the engine whether there is a function to call.
pub fn set_decode_png<F: DecodePngFn>(
    vtable: &mut VTable<F>,
    f: Option<F>,
    set: impl FnOnce(SysOption, bool) -> i32,
) -> (res: Result<()>)
    requires
        set.requires((SysOption::DecodePng, f is Some)),
    ensures
        final(vtable).decode_png() == f,
        exists|code: i32| #[trigger]
            set.ensures((SysOption::DecodePng, f is Some), code) && res == outcome(code),
{
    let callable = f.is_some();
    vtable.decode_png = f;
    from_result(set(SysOption::DecodePng, callable))
}

/// Decode a PNG image for the engine with the function that is installed.
pub fn decode_for_engine<F: Fn(&[u8]) -> Option<Image>>(
    vtable: &VTable<F>,
    data: &[u8],
    place: impl FnOnce(&Vec<u8>) -> usize,
) -> (res: Option<SysImage>)
    requires
        vtable.decode_png() matches Some(f) ==> f.requires((data,)),
        forall|pixels: &Vec<u8>| #[trigger] place.requires((pixels,)),
    ensures
        match vtable.decode_png() {
            Some(f) => exists|image: Option<Image>| #[trigger]
                f.ensures((data,), image) && delivered(place, image, res),
            None => res is None,
        },
{
    match &vtable.decode_png {
        Some(f) => {
            let image = f(data);
            deliver(image, place)
        },
        None => None,
    }
}

/// Decode a PNG image with the `png` crate, for [`set_decode_png`].
pub fn decode_with_png_crate(data: &[u8]) -> (res: Option<Image>)
    ensures
        parts(res) == png_image(data@),
        res matches Some(image) ==> image.data@.len() == image.width * image.height * 4,
{
    let mut buf: Vec<u8> = Vec::new();
    decode(data, &mut buf)
}

/// An image that is handed over is the one that was decoded, at the place that it was put at; and it
/// is handed over exactly if it was decoded and put somewhere.
pub proof fn a_delivered_image_is_the_decoded_one<F: FnOnce(&Vec<u8>) -> usize>(
    place: F,
    image: Option<Image>,
    res: Option<SysImage>,
)
    requires
        delivered(place, image, res),
    ensures
        image is None ==> res is None,
        image matches Some(image) ==> match res {
            Some(sent) => {
                &&& sent.width == image.width
                &&& sent.height == image.height
                &&& sent.data_len == image.data@.len() as usize
                &&& sent.data != 0
                &&& place.ensures((&image.data,), sent.data)
            },
            None => place.ensures((&image.data,), 0),
        },
{
}

} // verus!
