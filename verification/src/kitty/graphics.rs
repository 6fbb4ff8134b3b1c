//! Inspecting images and placements stored via the
//! [Kitty graphics protocol](https://sw.kovidgoyal.net/kitty/graphics-protocol/).
//!
//! The central object is [`Graphics`], an opaque handle to the image storage associated with a
//! terminal's active screen. From it one can iterate over placements and look up individual images.
//!
//! Before images can be stored, Kitty graphics must be enabled on the terminal by setting a
//! non-zero storage limit with [`Terminal::set_kitty_image_storage_limit`], and a PNG decoder must
//! be installed via [`set_png_decoder`].
use crate::error::{from_result, outcome, Error, Result};
use crate::memory::{created, new_object, Allocator, NewReply, Object, Ref, DEFAULT_ALLOCATOR};
use crate::png_image::{decode, parts, png_image};
use crate::reply::{accepted, answered, get, put, Reply};
use crate::screen::Selection;
use crate::sys::{self, deliver, delivered, SysImage, SysOption};
use crate::terminal::{Terminal, TerminalData, TerminalOption};
use vstd::prelude::*;

verus! {

/// Opaque reference to a Kitty graphics image storage.
///
/// Obtained via [`Terminal::kitty_graphics`]. It remains valid until the next mutating terminal
/// call (e.g. [`Terminal::vt_write`] or [`Terminal::reset`]).
#[derive(Debug)]
pub struct Graphics {
    inner: Ref,
}

/// Opaque reference to a Kitty graphics image.
///
/// Obtained via [`Graphics::image`] with an image ID. It remains valid until the next mutating
/// terminal call.
#[derive(Debug)]
pub struct Image {
    inner: Ref,
}

impl<H> Terminal<H> {
    /// The Kitty graphics image storage for the active screen.
    ///
    /// The storage is borrowed from the terminal. It is valid until the next mutating terminal call
    /// (e.g. [`Terminal::vt_write`] or [`Terminal::reset`]).
    pub fn kitty_graphics(
        &self,
        query: impl FnOnce(usize, TerminalData) -> Reply<usize>,
    ) -> (res: Result<Graphics>)
        requires
            query.requires((self.addr(), TerminalData::KittyGraphics)),
        ensures
            exists|reply: Reply<usize>| #[trigger]
                query.ensures((self.addr(), TerminalData::KittyGraphics), reply) && match res {
                    Ok(graphics) => reply.value != 0 && reply.outcome() == Ok::<usize, Error>(
                        graphics.addr(),
                    ),
                    Err(e) => if reply.outcome() is Ok {
                        reply.value == 0 && e == Error::OutOfMemory
                    } else {
                        reply.outcome() == Err::<usize, Error>(e)
                    },
                },
    {
        match get(self.as_raw(), TerminalData::KittyGraphics, query) {
            Ok(raw) => match Ref::new(raw) {
                Ok(inner) => Ok(Graphics { inner }),
                Err(e) => Err(e),
            },
            Err(e) => Err(e),
        }
    }

    /// The Kitty image storage limit in bytes for the active screen.
    ///
    /// A value of zero means the Kitty graphics protocol is disabled.
    pub fn kitty_image_storage_limit(
        &self,
        query: impl FnOnce(usize, TerminalData) -> Reply<u64>,
    ) -> (res: Result<u64>)
        requires
            query.requires((self.addr(), TerminalData::KittyImageStorageLimit)),
        ensures
            answered(query, self.addr(), TerminalData::KittyImageStorageLimit, res),
    {
        get(self.as_raw(), TerminalData::KittyImageStorageLimit, query)
    }

    /// Whether the file medium is enabled for Kitty image loading on the active screen.
    pub fn is_kitty_image_from_file_allowed(
        &self,
        query: impl FnOnce(usize, TerminalData) -> Reply<bool>,
    ) -> (res: Result<bool>)
        requires
            query.requires((self.addr(), TerminalData::KittyImageMediumFile)),
        ensures
            answered(query, self.addr(), TerminalData::KittyImageMediumFile, res),
    {
        get(self.as_raw(), TerminalData::KittyImageMediumFile, query)
    }

    /// Whether the temporary file medium is enabled for Kitty image loading on the active screen.
    pub fn is_kitty_image_from_temp_file_allowed(
        &self,
        query: impl FnOnce(usize, TerminalData) -> Reply<bool>,
    ) -> (res: Result<bool>)
        requires
            query.requires((self.addr(), TerminalData::KittyImageMediumTempFile)),
        ensures
            answered(query, self.addr(), TerminalData::KittyImageMediumTempFile, res),
    {
        get(self.as_raw(), TerminalData::KittyImageMediumTempFile, query)
    }

    /// Whether the shared memory medium is enabled for Kitty image loading on the active screen.
    pub fn is_kitty_image_from_shared_mem_allowed(
        &self,
        query: impl FnOnce(usize, TerminalData) -> Reply<bool>,
    ) -> (res: Result<bool>)
        requires
            query.requires((self.addr(), TerminalData::KittyImageMediumSharedMem)),
        ensures
            answered(query, self.addr(), TerminalData::KittyImageMediumSharedMem, res),
    {
        get(self.as_raw(), TerminalData::KittyImageMediumSharedMem, query)
    }

    /// Set the Kitty image storage limit in bytes.
    ///
    /// Applied to all initialized screens (primary and alternate). A value of zero disables the Kitty
    /// graphics protocol entirely, deleting all stored images and placements.
    pub fn set_kitty_image_storage_limit(
        &mut self,
        value: u64,
        change: impl FnOnce(usize, TerminalOption, u64) -> i32,
    ) -> (res: Result<()>)
        requires
            change.requires((old(self).addr(), TerminalOption::KittyImageStorageLimit, value)),
        ensures
            *final(self) == *old(self),
            accepted(change, old(self).addr(), TerminalOption::KittyImageStorageLimit, value, res),
    {
        put(self.as_raw(), TerminalOption::KittyImageStorageLimit, value, change)
    }

    /// Enable or disable Kitty image loading via the file medium.
    pub fn set_kitty_image_from_file_allowed(
        &mut self,
        value: bool,
        change: impl FnOnce(usize, TerminalOption, bool) -> i32,
    ) -> (res: Result<()>)
        requires
            change.requires((old(self).addr(), TerminalOption::KittyImageMediumFile, value)),
        ensures
            *final(self) == *old(self),
            accepted(change, old(self).addr(), TerminalOption::KittyImageMediumFile, value, res),
    {
        put(self.as_raw(), TerminalOption::KittyImageMediumFile, value, change)
    }

    /// Enable or disable Kitty image loading via the temporary file medium.
    pub fn set_kitty_image_from_temp_file_allowed(
        &mut self,
        value: bool,
        change: impl FnOnce(usize, TerminalOption, bool) -> i32,
    ) -> (res: Result<()>)
        requires
            change.requires((old(self).addr(), TerminalOption::KittyImageMediumTempFile, value)),
        ensures
            *final(self) == *old(self),
            accepted(change, old(self).addr(), TerminalOption::KittyImageMediumTempFile, value, res),
    {
        put(self.as_raw(), TerminalOption::KittyImageMediumTempFile, value, change)
    }

    /// Enable or disable Kitty image loading via the shared memory medium.
    pub fn set_kitty_image_from_shared_mem_allowed(
        &mut self,
        value: bool,
        change: impl FnOnce(usize, TerminalOption, bool) -> i32,
    ) -> (res: Result<()>)
        requires
            change.requires((old(self).addr(), TerminalOption::KittyImageMediumSharedMem, value)),
        ensures
            *final(self) == *old(self),
            accepted(change, old(self).addr(), TerminalOption::KittyImageMediumSharedMem, value, res),
    {
        put(self.as_raw(), TerminalOption::KittyImageMediumSharedMem, value, change)
    }

    /// Set the maximum bytes the APC handler will buffer for Kitty graphics protocol data.
    ///
    /// Without a value the built-in default applies.
    pub fn set_apc_max_bytes_kitty(
        &mut self,
        value: Option<usize>,
        change: impl FnOnce(usize, TerminalOption, Option<usize>) -> i32,
    ) -> (res: Result<()>)
        requires
            change.requires((old(self).addr(), TerminalOption::ApcMaxBytesKitty, value)),
        ensures
            *final(self) == *old(self),
            accepted(change, old(self).addr(), TerminalOption::ApcMaxBytesKitty, value, res),
    {
        put(self.as_raw(), TerminalOption::ApcMaxBytesKitty, value, change)
    }
}

impl Graphics {
    /// The address of the storage.
    pub closed spec fn addr(&self) -> usize {
        self.inner.addr()
    }

    /// The address of the storage.
    pub fn as_raw(&self) -> (res: usize)
        ensures
            res == self.addr(),
    {
        self.inner.as_raw()
    }

    /// Look up a Kitty graphics image by its image ID.
    ///
    /// Returns `None` if no image with the given ID exists.
    pub fn image(&self, id: u32, lookup: impl FnOnce(usize, u32) -> usize) -> (res: Option<Image>)
        requires
            lookup.requires((self.addr(), id)),
        ensures
            exists|raw: usize| #[trigger]
                lookup.ensures((self.addr(), id), raw) && match res {
                    Some(image) => raw != 0 && image.addr() == raw,
                    None => raw == 0,
                },
    {
        match Ref::new(lookup(self.as_raw(), id)) {
            Ok(inner) => Some(Image { inner }),
            Err(_) => None,
        }
    }
}

/// What can be asked of an image.
#[derive(Clone, Copy, Debug, PartialEq, Eq, Structural)]
pub enum ImageData {
    /// The image ID.
    Id,
    /// The image number.
    Number,
    /// The width in pixels.
    Width,
    /// The height in pixels.
    Height,
    /// The pixel format.
    Format,
    /// The compression.
    Compression,
    /// The address of the pixel data.
    DataPtr,
    /// The length of the pixel data.
    DataLen,
}

/// Where the pixel data of an image is.
#[derive(Clone, Copy, Debug, PartialEq, Eq, Structural)]
pub struct PixelData {
    /// The address of the first byte.
    pub ptr: usize,
    /// How many bytes there are.
    pub len: usize,
}

impl Image {
    /// The address of the image.
    pub closed spec fn addr(&self) -> usize {
        self.inner.addr()
    }

    /// The address of the image.
    pub fn as_raw(&self) -> (res: usize)
        ensures
            res == self.addr(),
    {
        self.inner.as_raw()
    }

    /// The image ID.
    pub fn id(&self, query: impl FnOnce(usize, ImageData) -> Reply<u32>) -> (res: Result<u32>)
        requires
            query.requires((self.addr(), ImageData::Id)),
        ensures
            answered(query, self.addr(), ImageData::Id, res),
    {
        get(self.as_raw(), ImageData::Id, query)
    }

    /// The image number.
    pub fn number(&self, query: impl FnOnce(usize, ImageData) -> Reply<u32>) -> (res: Result<u32>)
        requires
            query.requires((self.addr(), ImageData::Number)),
        ensures
            answered(query, self.addr(), ImageData::Number, res),
    {
        get(self.as_raw(), ImageData::Number, query)
    }

    /// Image width in pixels.
    pub fn width(&self, query: impl FnOnce(usize, ImageData) -> Reply<u32>) -> (res: Result<u32>)
        requires
            query.requires((self.addr(), ImageData::Width)),
        ensures
            answered(query, self.addr(), ImageData::Width, res),
    {
        get(self.as_raw(), ImageData::Width, query)
    }

    /// Image height in pixels.
    pub fn height(&self, query: impl FnOnce(usize, ImageData) -> Reply<u32>) -> (res: Result<u32>)
        requires
            query.requires((self.addr(), ImageData::Height)),
        ensures
            answered(query, self.addr(), ImageData::Height, res),
    {
        get(self.as_raw(), ImageData::Height, query)
    }

    /// Pixel format of the image.
    pub fn format(
        &self,
        query: impl FnOnce(usize, ImageData) -> Reply<u32>,
    ) -> (res: Result<ImageFormat>)
        requires
            query.requires((self.addr(), ImageData::Format)),
        ensures
            exists|reply: Reply<u32>| #[trigger]
                query.ensures((self.addr(), ImageData::Format), reply) &&
                    res == match reply.outcome() {
                    Ok(value) => ImageFormat::decoded(value),
                    Err(e) => Err(e),
                },
    {
        match get(self.as_raw(), ImageData::Format, query) {
            Ok(value) => ImageFormat::from_code(value),
            Err(e) => Err(e),
        }
    }

    /// Compression of the image.
    pub fn compression(
        &self,
        query: impl FnOnce(usize, ImageData) -> Reply<u32>,
    ) -> (res: Result<Compression>)
        requires
            query.requires((self.addr(), ImageData::Compression)),
        ensures
            exists|reply: Reply<u32>| #[trigger]
                query.ensures((self.addr(), ImageData::Compression), reply) &&
                    res == match reply.outcome() {
                    Ok(value) => Compression::decoded(value),
                    Err(e) => Err(e),
                },
    {
        match get(self.as_raw(), ImageData::Compression, query) {
            Ok(value) => Compression::from_code(value),
            Err(e) => Err(e),
        }
    }

    /// Where the raw pixel data is.
    ///
    /// Valid as long as the underlying terminal is not mutated.
    pub fn data(
        &self,
        ptr: impl FnOnce(usize, ImageData) -> Reply<usize>,
        len: impl FnOnce(usize, ImageData) -> Reply<usize>,
    ) -> (res: Result<PixelData>)
        requires
            ptr.requires((self.addr(), ImageData::DataPtr)),
            len.requires((self.addr(), ImageData::DataLen)),
        ensures
            exists|p: Result<usize>| #[trigger]
                answered(ptr, self.addr(), ImageData::DataPtr, p) && match p {
                    Ok(p) => exists|n: Result<usize>| #[trigger]
                        answered(len, self.addr(), ImageData::DataLen, n) && res == match n {
                            Ok(n) => Ok(PixelData { ptr: p, len: n }),
                            Err(e) => Err(e),
                        },
                    Err(e) => res == Err::<PixelData, Error>(e),
                },
    {
        match get(self.as_raw(), ImageData::DataPtr, ptr) {
            Ok(p) => match get(self.as_raw(), ImageData::DataLen, len) {
                Ok(n) => Ok(PixelData { ptr: p, len: n }),
                Err(e) => Err(e),
            },
            Err(e) => Err(e),
        }
    }
}

/// Opaque reference to a Kitty graphics placement iterator.
#[derive(Debug)]
pub struct PlacementIterator {
    inner: Object,
}

impl PlacementIterator {
    /// The address of the placement iterator.
    pub closed spec fn addr(&self) -> usize {
        self.inner.addr()
    }

    /// The address that a constructor's result holds, or its error.
    pub open spec fn addr_of(res: Result<Self>) -> Result<usize> {
        match res {
            Ok(value) => Ok(value.addr()),
            Err(e) => Err(e),
        }
    }

    /// Create a new placement iterator.
    pub fn new(create: impl FnOnce(usize) -> NewReply) -> (res: Result<Self>)
        requires
            create.requires((DEFAULT_ALLOCATOR,)),
        ensures
            created(create, DEFAULT_ALLOCATOR, Self::addr_of(res)),
    {
        Self::new_inner(DEFAULT_ALLOCATOR, create)
    }

    /// Create a new placement iterator with a custom allocator.
    pub fn new_with_alloc(
        alloc: &Allocator,
        create: impl FnOnce(usize) -> NewReply,
    ) -> (res: Result<Self>)
        requires
            create.requires((alloc.addr(),)),
        ensures
            created(create, alloc.addr(), Self::addr_of(res)),
    {
        Self::new_inner(alloc.to_raw(), create)
    }

    fn new_inner<F: FnOnce(usize) -> NewReply>(alloc: usize, create: F) -> (res: Result<Self>)
        requires
            create.requires((alloc,)),
        ensures
            created(create, alloc, Self::addr_of(res)),
    {
        match new_object(alloc, create) {
            Ok(inner) => Ok(PlacementIterator { inner }),
            Err(e) => Err(e),
        }
    }

    /// The address of the placement iterator.
    pub fn as_raw(&self) -> (res: usize)
        ensures
            res == self.addr(),
    {
        self.inner.as_raw()
    }

    /// Start over at the placements of the storage.
    pub fn update<'t>(
        &'t mut self,
        graphics: &Graphics,
        populate: impl FnOnce(usize, usize) -> i32,
    ) -> (res: Result<PlacementIteration<'t>>)
        requires
            populate.requires((graphics.addr(), old(self).addr())),
        ensures
            *final(self) == *old(self),
            exists|code: i32| #[trigger]
                populate.ensures((graphics.addr(), old(self).addr()), code) && match res {
                    Ok(placements) => outcome(code) is Ok && placements.addr() == old(self).addr(),
                    Err(e) => outcome(code) == Err::<(), Error>(e),
                },
    {
        match from_result(populate(graphics.as_raw(), self.as_raw())) {
            Ok(_) => Ok(PlacementIteration { iter: &*self }),
            Err(e) => Err(e),
        }
    }
}

/// What can be asked of a placement.
#[derive(Clone, Copy, Debug, PartialEq, Eq, Structural)]
pub enum PlacementData {
    /// The ID of the image.
    ImageId,
    /// The ID of the placement.
    PlacementId,
    /// Whether the placement is virtual.
    IsVirtual,
    /// The pixel offset from the left edge of the cell.
    XOffset,
    /// The pixel offset from the top edge of the cell.
    YOffset,
    /// The x origin of the source rectangle.
    SourceX,
    /// The y origin of the source rectangle.
    SourceY,
    /// The width of the source rectangle.
    SourceWidth,
    /// The height of the source rectangle.
    SourceHeight,
    /// The number of columns.
    Columns,
    /// The number of rows.
    Rows,
    /// The z-index.
    Z,
}

/// What can be set on a placement iterator.
#[derive(Clone, Copy, Debug, PartialEq, Eq, Structural)]
pub enum PlacementIteratorOption {
    /// The z-layer filter.
    Layer,
}

/// An active iteration over the placements of a storage.
///
/// Obtained via [`PlacementIterator::update`].
#[derive(Debug)]
pub struct PlacementIteration<'t> {
    iter: &'t PlacementIterator,
}

impl<'t> PlacementIteration<'t> {
    /// The address of the placement iterator.
    pub closed spec fn addr(&self) -> usize {
        self.iter.addr()
    }

    /// The address of the placement iterator.
    pub fn as_raw(&self) -> (res: usize)
        ensures
            res == self.addr(),
    {
        self.iter.as_raw()
    }

    /// Advance to the next placement, if there is one.
    ///
    /// If a layer filter has been set via [`PlacementIteration::set_layer`], only placements
    /// matching that layer are visited.
    pub fn next(&mut self, advance: impl FnOnce(usize) -> bool) -> (res: Option<&Self>)
        requires
            advance.requires((old(self).addr(),)),
        ensures
            *final(self) == *old(self),
            advance.ensures((old(self).addr(),), res is Some),
            res matches Some(placement) ==> *placement == *old(self),
    {
        if advance(self.as_raw()) {
            Some(&*self)
        } else {
            None
        }
    }

    /// Set the z-layer filter for the iterator.
    pub fn set_layer(
        &self,
        layer: Layer,
        change: impl FnOnce(usize, PlacementIteratorOption, u32) -> i32,
    ) -> (res: Result<()>)
        requires
            change.requires((self.addr(), PlacementIteratorOption::Layer, layer.spec_code())),
        ensures
            accepted(change, self.addr(), PlacementIteratorOption::Layer, layer.spec_code(), res),
    {
        put(self.as_raw(), PlacementIteratorOption::Layer, layer.code(), change)
    }

    /// Compute the rendered pixel size of the current placement.
    ///
    /// Takes into account the placement's source rectangle, specified columns/rows, and aspect ratio.
    pub fn pixel_size<H>(
        &self,
        image: &Image,
        terminal: &Terminal<H>,
        query: impl FnOnce(usize, usize, usize) -> Reply<PixelSize>,
    ) -> (res: Result<PixelSize>)
        requires
            query.requires((self.addr(), image.addr(), terminal.addr())),
        ensures
            exists|reply: Reply<PixelSize>| #[trigger]
                query.ensures((self.addr(), image.addr(), terminal.addr()), reply) && res
                    == reply.outcome(),
    {
        query(self.as_raw(), image.as_raw(), terminal.as_raw()).into_result()
    }

    /// Compute how many grid columns and rows the current placement occupies.
    pub fn grid_size<H>(
        &self,
        image: &Image,
        terminal: &Terminal<H>,
        query: impl FnOnce(usize, usize, usize) -> Reply<GridSize>,
    ) -> (res: Result<GridSize>)
        requires
            query.requires((self.addr(), image.addr(), terminal.addr())),
        ensures
            exists|reply: Reply<GridSize>| #[trigger]
                query.ensures((self.addr(), image.addr(), terminal.addr()), reply) && res
                    == reply.outcome(),
    {
        query(self.as_raw(), image.as_raw(), terminal.as_raw()).into_result()
    }

    /// Get the viewport-relative grid position of the current placement.
    ///
    /// The row can be negative when the placement's origin has scrolled above the top of the viewport.
    /// Returns `None` when the placement is completely outside the viewport, or when it is a virtual
    /// (unicode placeholder) placement.
    pub fn viewport_pos<H>(
        &self,
        image: &Image,
        terminal: &Terminal<H>,
        query: impl FnOnce(usize, usize, usize) -> Reply<ViewportPos>,
    ) -> (res: Result<Option<ViewportPos>>)
        requires
            query.requires((self.addr(), image.addr(), terminal.addr())),
        ensures
            exists|reply: Reply<ViewportPos>| #[trigger]
                query.ensures((self.addr(), image.addr(), terminal.addr()), reply) && res
                    == reply.optional_outcome(),
    {
        query(self.as_raw(), image.as_raw(), terminal.as_raw()).into_optional()
    }

    /// Get the resolved source rectangle for the current placement.
    ///
    /// A width or height of 0 in the placement means "use the full image dimension", and the
    /// resulting rectangle is clamped to the actual image bounds.
    pub fn source_rect(
        &self,
        image: &Image,
        query: impl FnOnce(usize, usize) -> Reply<SourceRect>,
    ) -> (res: Result<SourceRect>)
        requires
            query.requires((self.addr(), image.addr())),
        ensures
            answered(query, self.addr(), image.addr(), res),
    {
        get(self.as_raw(), image.as_raw(), query)
    }

    /// Get the bounding rectangle of the current placement as a selection.
    pub fn rect<H>(
        &self,
        image: &Image,
        terminal: &Terminal<H>,
        query: impl FnOnce(usize, usize, usize) -> Reply<Selection>,
    ) -> (res: Result<Selection>)
        requires
            query.requires((self.addr(), image.addr(), terminal.addr())),
        ensures
            exists|reply: Reply<Selection>| #[trigger]
                query.ensures((self.addr(), image.addr(), terminal.addr()), reply) && res
                    == reply.outcome(),
    {
        query(self.as_raw(), image.as_raw(), terminal.as_raw()).into_result()
    }

    /// Get all rendering geometry for a placement in a single call.
    ///
    /// Combines pixel size, grid size, viewport position, and source rectangle into one struct. When
    /// `viewport_visible` is false, the placement is fully off-screen or is a virtual placement;
    /// `viewport_col` and `viewport_row` may contain meaningless values in that case.
    pub fn placement_render_info<H>(
        &self,
        image: &Image,
        terminal: &Terminal<H>,
        query: impl FnOnce(usize, usize, usize) -> Reply<PlacementRenderInfo>,
    ) -> (res: Result<PlacementRenderInfo>)
        requires
            query.requires((self.addr(), image.addr(), terminal.addr())),
        ensures
            exists|reply: Reply<PlacementRenderInfo>| #[trigger]
                query.ensures((self.addr(), image.addr(), terminal.addr()), reply) && res
                    == reply.outcome(),
    {
        query(self.as_raw(), image.as_raw(), terminal.as_raw()).into_result()
    }

    /// The image ID this placement belongs to.
    pub fn image_id(
        &self,
        query: impl FnOnce(usize, PlacementData) -> Reply<u32>,
    ) -> (res: Result<u32>)
        requires
            query.requires((self.addr(), PlacementData::ImageId)),
        ensures
            answered(query, self.addr(), PlacementData::ImageId, res),
    {
        get(self.as_raw(), PlacementData::ImageId, query)
    }

    /// The ID of this placement.
    pub fn placement_id(
        &self,
        query: impl FnOnce(usize, PlacementData) -> Reply<u32>,
    ) -> (res: Result<u32>)
        requires
            query.requires((self.addr(), PlacementData::PlacementId)),
        ensures
            answered(query, self.addr(), PlacementData::PlacementId, res),
    {
        get(self.as_raw(), PlacementData::PlacementId, query)
    }

    /// Whether this is a virtual placement (unicode placeholder).
    pub fn is_virtual(
        &self,
        query: impl FnOnce(usize, PlacementData) -> Reply<bool>,
    ) -> (res: Result<bool>)
        requires
            query.requires((self.addr(), PlacementData::IsVirtual)),
        ensures
            answered(query, self.addr(), PlacementData::IsVirtual, res),
    {
        get(self.as_raw(), PlacementData::IsVirtual, query)
    }

    /// Pixel offset from the left edge of the cell.
    pub fn x_offset(
        &self,
        query: impl FnOnce(usize, PlacementData) -> Reply<u32>,
    ) -> (res: Result<u32>)
        requires
            query.requires((self.addr(), PlacementData::XOffset)),
        ensures
            answered(query, self.addr(), PlacementData::XOffset, res),
    {
        get(self.as_raw(), PlacementData::XOffset, query)
    }

    /// Pixel offset from the top edge of the cell.
    pub fn y_offset(
        &self,
        query: impl FnOnce(usize, PlacementData) -> Reply<u32>,
    ) -> (res: Result<u32>)
        requires
            query.requires((self.addr(), PlacementData::YOffset)),
        ensures
            answered(query, self.addr(), PlacementData::YOffset, res),
    {
        get(self.as_raw(), PlacementData::YOffset, query)
    }

    /// Source rectangle x origin in pixels.
    pub fn source_x(
        &self,
        query: impl FnOnce(usize, PlacementData) -> Reply<u32>,
    ) -> (res: Result<u32>)
        requires
            query.requires((self.addr(), PlacementData::SourceX)),
        ensures
            answered(query, self.addr(), PlacementData::SourceX, res),
    {
        get(self.as_raw(), PlacementData::SourceX, query)
    }

    /// Source rectangle y origin in pixels.
    pub fn source_y(
        &self,
        query: impl FnOnce(usize, PlacementData) -> Reply<u32>,
    ) -> (res: Result<u32>)
        requires
            query.requires((self.addr(), PlacementData::SourceY)),
        ensures
            answered(query, self.addr(), PlacementData::SourceY, res),
    {
        get(self.as_raw(), PlacementData::SourceY, query)
    }

    /// Source rectangle width in pixels (0 = full image width).
    pub fn source_width(
        &self,
        query: impl FnOnce(usize, PlacementData) -> Reply<u32>,
    ) -> (res: Result<u32>)
        requires
            query.requires((self.addr(), PlacementData::SourceWidth)),
        ensures
            answered(query, self.addr(), PlacementData::SourceWidth, res),
    {
        get(self.as_raw(), PlacementData::SourceWidth, query)
    }

    /// Source rectangle height in pixels (0 = full image height).
    pub fn source_height(
        &self,
        query: impl FnOnce(usize, PlacementData) -> Reply<u32>,
    ) -> (res: Result<u32>)
        requires
            query.requires((self.addr(), PlacementData::SourceHeight)),
        ensures
            answered(query, self.addr(), PlacementData::SourceHeight, res),
    {
        get(self.as_raw(), PlacementData::SourceHeight, query)
    }

    /// Number of columns this placement occupies.
    pub fn columns(
        &self,
        query: impl FnOnce(usize, PlacementData) -> Reply<u32>,
    ) -> (res: Result<u32>)
        requires
            query.requires((self.addr(), PlacementData::Columns)),
        ensures
            answered(query, self.addr(), PlacementData::Columns, res),
    {
        get(self.as_raw(), PlacementData::Columns, query)
    }

    /// Number of rows this placement occupies.
    pub fn rows(&self, query: impl FnOnce(usize, PlacementData) -> Reply<u32>) -> (res: Result<u32>)
        requires
            query.requires((self.addr(), PlacementData::Rows)),
        ensures
            answered(query, self.addr(), PlacementData::Rows, res),
    {
        get(self.as_raw(), PlacementData::Rows, query)
    }

    /// Z-index for this placement.
    pub fn z(&self, query: impl FnOnce(usize, PlacementData) -> Reply<i32>) -> (res: Result<i32>)
        requires
            query.requires((self.addr(), PlacementData::Z)),
        ensures
            answered(query, self.addr(), PlacementData::Z, res),
    {
        get(self.as_raw(), PlacementData::Z, query)
    }
}

/// The size of an image in pixel coordinates.
#[derive(Clone, Copy, Debug, Default, PartialEq, Eq, Structural)]
pub struct PixelSize {
    /// The width in number of pixels.
    pub width: u32,
    /// The height in number of pixels.
    pub height: u32,
}

/// The size of an image in grid coordinates.
#[derive(Clone, Copy, Debug, Default, PartialEq, Eq, Structural)]
pub struct GridSize {
    /// The number of columns.
    pub cols: u32,
    /// The number of rows.
    pub rows: u32,
}

/// The position of an image in the viewport.
///
/// The row can be negative when the placement's origin has scrolled above the top of the viewport.
/// For example, a 4-row image that has scrolled up by 2 rows returns row=-2, meaning its top 2 rows
/// are above the visible area but its bottom 2 rows are still on screen.
#[derive(Clone, Copy, Debug, Default, PartialEq, Eq, Structural)]
pub struct ViewportPos {
    /// The column index relative to the viewport.
    pub col: i32,
    /// The row index relative to the viewport.
    pub row: i32,
}

/// The pixel position and size of a source rectangle.
#[derive(Clone, Copy, Debug, Default, PartialEq, Eq, Structural)]
pub struct SourceRect {
    /// The x origin in pixels.
    pub x: u32,
    /// The y origin in pixels.
    pub y: u32,
    /// The width in pixels.
    pub width: u32,
    /// The height in pixels.
    pub height: u32,
}

/// All rendering geometry of a placement.
#[derive(Clone, Copy, Debug, Default, PartialEq, Eq, Structural)]
pub struct PlacementRenderInfo {
    /// The rendered width in pixels.
    pub pixel_width: u32,
    /// The rendered height in pixels.
    pub pixel_height: u32,
    /// The number of columns.
    pub grid_cols: u32,
    /// The number of rows.
    pub grid_rows: u32,
    /// The column relative to the viewport.
    pub viewport_col: i32,
    /// The row relative to the viewport.
    pub viewport_row: i32,
    /// Whether any part of the placement is in the viewport.
    pub viewport_visible: bool,
    /// The x origin of the source rectangle in pixels.
    pub source_x: u32,
    /// The y origin of the source rectangle in pixels.
    pub source_y: u32,
    /// The width of the source rectangle in pixels.
    pub source_width: u32,
    /// The height of the source rectangle in pixels.
    pub source_height: u32,
}

/// Z-layer classification for kitty graphics placements.
#[derive(Clone, Copy, Debug, PartialEq, Eq, Structural)]
pub enum Layer {
    /// Match all placements; apply no filtering (default behavior).
    All,
    /// Match placements positioned below the cell background (z < [`i32::MIN`] / 2).
    BelowBg,
    /// Match placements positioned above the cell background and below text
    /// ([`i32::MIN`] / 2 <= z < 0).
    BelowText,
    /// Match placements positioned above text (z >= 0).
    AboveText,
}

impl Default for Layer {
    /// No filtering.
    fn default() -> (res: Self)
        ensures
            res == Layer::All,
    {
        Layer::All
    }
}

impl Layer {
    /// The number that stands for this value in the engine's interface.
    pub open spec fn spec_code(self) -> u32 {
        match self {
            Layer::All => 0,
            Layer::BelowBg => 1,
            Layer::BelowText => 2,
            Layer::AboveText => 3,
        }
    }

    /// The value that `code` stands for; a number that stands for none is an invalid value.
    pub open spec fn decoded(code: u32) -> Result<Self> {
        match code {
            0 => Ok(Layer::All),
            1 => Ok(Layer::BelowBg),
            2 => Ok(Layer::BelowText),
            3 => Ok(Layer::AboveText),
            _ => Err(Error::InvalidValue),
        }
    }

    /// The number that stands for this value in the engine's interface.
    pub fn code(self) -> (res: u32)
        ensures
            res == self.spec_code(),
    {
        match self {
            Layer::All => 0,
            Layer::BelowBg => 1,
            Layer::BelowText => 2,
            Layer::AboveText => 3,
        }
    }

    /// The value that `code` stands for.
    pub fn from_code(code: u32) -> (res: Result<Self>)
        ensures
            res == Self::decoded(code),
    {
        match code {
            0 => Ok(Layer::All),
            1 => Ok(Layer::BelowBg),
            2 => Ok(Layer::BelowText),
            3 => Ok(Layer::AboveText),
            _ => Err(Error::InvalidValue),
        }
    }

    /// Every value has a number of its own, and a number decodes to the value that it stands for
    /// and to nothing else.
    pub proof fn codes_round_trip(self, code: u32)
        ensures
            Self::decoded(self.spec_code()) == Ok::<Self, Error>(self),
            Self::decoded(code) matches Ok(value) ==> value.spec_code() == code,
    {
    }

    /// The engine counts the values from zero on: `All`, `BelowBg`, `BelowText`, `AboveText`. No
    /// other number stands for one.
    pub proof fn values_are_counted(self, code: u32)
        ensures
            self is All <==> self.spec_code() == 0,
            self is BelowBg <==> self.spec_code() == 1,
            self is BelowText <==> self.spec_code() == 2,
            self is AboveText <==> self.spec_code() == 3,
            Self::decoded(code) == Ok::<Self, Error>(self) <==> code == self.spec_code(),
            Self::decoded(code) is Ok <==> code < 4,
            Self::decoded(code) is Err ==> Self::decoded(code) == Err::<Self, Error>(
                Error::InvalidValue,
            ),
    {
    }
}

/// Pixel format of a Kitty graphics image.
#[derive(Clone, Copy, Debug, PartialEq, Eq, Structural)]
#[non_exhaustive]
pub enum ImageFormat {
    /// Red, green, blue.
    Rgb,
    /// Red, green, blue, alpha.
    Rgba,
    /// A PNG image.
    Png,
    /// Gray, alpha.
    GrayAlpha,
    /// Gray.
    Gray,
}

impl Default for ImageFormat {
    /// Red, green, blue.
    fn default() -> (res: Self)
        ensures
            res == ImageFormat::Rgb,
    {
        ImageFormat::Rgb
    }
}

impl ImageFormat {
    /// The number that stands for this value in the engine's interface.
    pub open spec fn spec_code(self) -> u32 {
        match self {
            ImageFormat::Rgb => 0,
            ImageFormat::Rgba => 1,
            ImageFormat::Png => 2,
            ImageFormat::GrayAlpha => 3,
            ImageFormat::Gray => 4,
        }
    }

    /// The value that `code` stands for; a number that stands for none is an invalid value.
    pub open spec fn decoded(code: u32) -> Result<Self> {
        match code {
            0 => Ok(ImageFormat::Rgb),
            1 => Ok(ImageFormat::Rgba),
            2 => Ok(ImageFormat::Png),
            3 => Ok(ImageFormat::GrayAlpha),
            4 => Ok(ImageFormat::Gray),
            _ => Err(Error::InvalidValue),
        }
    }

    /// The number that stands for this value in the engine's interface.
    pub fn code(self) -> (res: u32)
        ensures
            res == self.spec_code(),
    {
        match self {
            ImageFormat::Rgb => 0,
            ImageFormat::Rgba => 1,
            ImageFormat::Png => 2,
            ImageFormat::GrayAlpha => 3,
            ImageFormat::Gray => 4,
        }
    }

    /// The value that `code` stands for.
    pub fn from_code(code: u32) -> (res: Result<Self>)
        ensures
            res == Self::decoded(code),
    {
        match code {
            0 => Ok(ImageFormat::Rgb),
            1 => Ok(ImageFormat::Rgba),
            2 => Ok(ImageFormat::Png),
            3 => Ok(ImageFormat::GrayAlpha),
            4 => Ok(ImageFormat::Gray),
            _ => Err(Error::InvalidValue),
        }
    }

    /// Every value has a number of its own, and a number decodes to the value that it stands for
    /// and to nothing else.
    pub proof fn codes_round_trip(self, code: u32)
        ensures
            Self::decoded(self.spec_code()) == Ok::<Self, Error>(self),
            Self::decoded(code) matches Ok(value) ==> value.spec_code() == code,
    {
    }

    /// The engine counts the values from zero on: `Rgb`, `Rgba`, `Png`, `GrayAlpha`, `Gray`. No
    /// other number stands for one.
    pub proof fn values_are_counted(self, code: u32)
        ensures
            self is Rgb <==> self.spec_code() == 0,
            self is Rgba <==> self.spec_code() == 1,
            self is Png <==> self.spec_code() == 2,
            self is GrayAlpha <==> self.spec_code() == 3,
            self is Gray <==> self.spec_code() == 4,
            Self::decoded(code) == Ok::<Self, Error>(self) <==> code == self.spec_code(),
            Self::decoded(code) is Ok <==> code < 5,
            Self::decoded(code) is Err ==> Self::decoded(code) == Err::<Self, Error>(
                Error::InvalidValue,
            ),
    {
    }
}

/// Compression of a Kitty graphics image.
#[derive(Clone, Copy, Debug, PartialEq, Eq, Structural)]
#[non_exhaustive]
pub enum Compression {
    /// Not compressed.
    Uncompressed,
    /// Compressed with zlib.
    ZlibDeflate,
}

impl Default for Compression {
    /// Not compressed.
    fn default() -> (res: Self)
        ensures
            res == Compression::Uncompressed,
    {
        Compression::Uncompressed
    }
}

impl Compression {
    /// The number that stands for this value in the engine's interface.
    pub open spec fn spec_code(self) -> u32 {
        match self {
            Compression::Uncompressed => 0,
            Compression::ZlibDeflate => 1,
        }
    }

    /// The value that `code` stands for; a number that stands for none is an invalid value.
    pub open spec fn decoded(code: u32) -> Result<Self> {
        match code {
            0 => Ok(Compression::Uncompressed),
            1 => Ok(Compression::ZlibDeflate),
            _ => Err(Error::InvalidValue),
        }
    }

    /// The number that stands for this value in the engine's interface.
    pub fn code(self) -> (res: u32)
        ensures
            res == self.spec_code(),
    {
        match self {
            Compression::Uncompressed => 0,
            Compression::ZlibDeflate => 1,
        }
    }

    /// The value that `code` stands for.
    pub fn from_code(code: u32) -> (res: Result<Self>)
        ensures
            res == Self::decoded(code),
    {
        match code {
            0 => Ok(Compression::Uncompressed),
            1 => Ok(Compression::ZlibDeflate),
            _ => Err(Error::InvalidValue),
        }
    }

    /// Every value has a number of its own, and a number decodes to the value that it stands for
    /// and to nothing else.
    pub proof fn codes_round_trip(self, code: u32)
        ensures
            Self::decoded(self.spec_code()) == Ok::<Self, Error>(self),
            Self::decoded(code) matches Ok(value) ==> value.spec_code() == code,
    {
    }

    /// The engine counts the values from zero on: `Uncompressed`, `ZlibDeflate`. No other number
    /// stands for one.
    pub proof fn values_are_counted(self, code: u32)
        ensures
            self is Uncompressed <==> self.spec_code() == 0,
            self is ZlibDeflate <==> self.spec_code() == 1,
            Self::decoded(code) == Ok::<Self, Error>(self) <==> code == self.spec_code(),
            Self::decoded(code) is Ok <==> code < 2,
            Self::decoded(code) is Err ==> Self::decoded(code) == Err::<Self, Error>(
                Error::InvalidValue,
            ),
    {
    }
}

//---------------------------
// Decoding PNG images
//---------------------------

/// A PNG decoder that can be used by the Kitty graphics protocol to decode PNG images into 8-bit
/// RGBA pixels.
///
/// See [`set_png_decoder`] for more details.
pub trait DecodePng {
    /// Whether the decoder may make `image` of `data`, that is, its width, its height, and its
    /// pixels, and be `after` from then on.
    ///
    /// A decoder that does not say more may make anything of it.
    open spec fn decodes(
        &self,
        data: Seq<u8>,
        image: Option<(u32, u32, Seq<u8>)>,
        after: &Self,
    ) -> bool {
        true
    }

    /// Decode a PNG into 8-bit RGBA pixels.
    fn decode_png(&mut self, data: &[u8]) -> (res: Option<DecodedImage>)
        ensures
            old(self).decodes(data@, decoded_parts(res), &*final(self)),
    ;
}

/// Result of decoding an image.
#[derive(Debug)]
pub struct DecodedImage {
    /// Image width in pixels.
    pub width: u32,
    /// Image height in pixels.
    pub height: u32,
    /// The decoded RGBA pixel data.
    pub data: Vec<u8>,
}

/// The PNG decoder that is installed, if there is one.
#[derive(Debug)]
pub struct InstalledDecoder<D> {
    decoder: Option<D>,
}

impl<D> InstalledDecoder<D> {
    /// The decoder that is installed.
    pub closed spec fn decoder(&self) -> Option<D> {
        self.decoder
    }

    /// No decoder.
    pub fn new() -> (res: Self)
        ensures
            res.decoder() is None,
    {
        InstalledDecoder { decoder: None }
    }
}

/// Set the PNG decoder.
///
/// When set, the terminal can accept PNG images via the Kitty Graphics Protocol. When cleared
/// (`None` value), PNG decoding is unsupported and PNG image data will be rejected.
///
/// `set` tells the engine whether there is a decoder to call.
pub fn set_png_decoder<D>(
    installed: &mut InstalledDecoder<D>,
    f: Option<D>,
    set: impl FnOnce(SysOption, bool) -> i32,
) -> (res: Result<()>)
    requires
        set.requires((SysOption::DecodePng, f is Some)),
    ensures
        final(installed).decoder() == f,
        exists|code: i32| #[trigger]
            set.ensures((SysOption::DecodePng, f is Some), code) && res == outcome(code),
{
    let callable = f.is_some();
    installed.decoder = f;
    from_result(set(SysOption::DecodePng, callable))
}

/// Decode a PNG image for the engine with the decoder that is installed.
///
/// `place` copies the pixels to memory of the engine's allocator and returns their address, null
/// if there is no memory. Without a decoder, without an image and without memory there is nothing
/// to return.
pub fn decode_for_engine<D: DecodePng>(
    installed: &mut InstalledDecoder<D>,
    data: &[u8],
    place: impl FnOnce(&Vec<u8>) -> usize,
) -> (res: Option<SysImage>)
    requires
        forall|pixels: &Vec<u8>| #[trigger] place.requires((pixels,)),
    ensures
        match (old(installed).decoder(), final(installed).decoder()) {
            (Some(decoder), Some(after)) => exists|image: Option<sys::Image>|
                decoder.decodes(data@, parts(image), &after) && #[trigger] delivered(
                    place,
                    image,
                    res,
                ),
            (None, None) => res is None,
            _ => false,
        },
{
    match &mut installed.decoder {
        Some(decoder) => {
            let image = match decoder.decode_png(data) {
                Some(image) => Some(
                    sys::Image { width: image.width, height: image.height, data: image.data },
                ),
                None => None,
            };
            deliver(image, place)
        },
        None => None,
    }
}

/// A PNG decoder for [`set_png_decoder`] using the [`png`] crate.
#[derive(Clone, Debug)]
pub struct RustPngDecoder {
    buf: Vec<u8>,
}

impl RustPngDecoder {
    /// The working space of the decoder.
    pub closed spec fn buffer(&self) -> Seq<u8> {
        self.buf@
    }

    /// A new decoder, without any working space yet.
    pub fn new() -> (res: Self)
        ensures
            res.buffer().len() == 0,
    {
        RustPngDecoder { buf: Vec::new() }
    }
}

/// The width, the height and the pixels of a decoded image.
pub open spec fn decoded_parts(image: Option<DecodedImage>) -> Option<(u32, u32, Seq<u8>)> {
    match image {
        Some(image) => Some((image.width, image.height, image.data@)),
        None => None,
    }
}

impl DecodePng for RustPngDecoder {
    open spec fn decodes(
        &self,
        data: Seq<u8>,
        image: Option<(u32, u32, Seq<u8>)>,
        after: &Self,
    ) -> bool {
        image == png_image(data)
    }

    fn decode_png(&mut self, data: &[u8]) -> (res: Option<DecodedImage>)
        ensures
            decoded_parts(res) == png_image(data@),
            res matches Some(image) ==> image.data@.len() == image.width * image.height * 4,
    {
        match decode(data, &mut self.buf) {
            Some(image) => Some(
                DecodedImage { width: image.width, height: image.height, data: image.data },
            ),
            None => None,
        }
    }
}

/// The parts of a decoded image are its own.
pub proof fn decoded_parts_are_the_images(image: DecodedImage)
    ensures
        decoded_parts(Some(image)) matches Some((width, height, pixels)) && width == image.width && height
            == image.height && pixels == image.data@,
        decoded_parts(None) is None,
{
}

} // verus!
