//! Objects of the engine with the numbers that it reports, not decoded.
//!
//! Most users want the modules [`render`](crate::render), [`key`](crate::key) and
//! [`mouse`](crate::mouse).
use crate::buffer::{encode_to_buf, overwrite, overwritten, writes, written, BufReply};
use crate::error::{from_result, outcome, Result};
use crate::memory::{created, new_object, NewReply, Object, DEFAULT_ALLOCATOR};
use crate::mouse::Position;
use crate::render::{
    IterationCellData, IterationRowData, IterationRowOption, RawColors, RenderStateData,
    RenderStateOption,
};
use crate::reply::{accepted, answered, get, put, Reply};
use crate::screen::CellData;
use crate::style::{RawStyle, RgbColor};
use crate::terminal::Terminal;
use vstd::prelude::*;

verus! {

/// A render state, with what the engine reports as it is.
#[derive(Debug)]
pub struct RenderState {
    inner: Object,
}

impl RenderState {
    /// The address of the render state.
    pub closed spec fn addr(&self) -> usize {
        self.inner.addr()
    }

    /// The address that a constructor's result holds, or its error.
    pub open spec fn addr_of(res: Result<Self>) -> Result<usize> {
        match res {
            Ok(value) => Ok(value.addr()),
            Err(e) => Err(e),
        }
    }

    /// Create a new render state.
    pub fn new(create: impl FnOnce(usize) -> NewReply) -> (res: Result<Self>)
        requires
            create.requires((DEFAULT_ALLOCATOR,)),
        ensures
            created(create, DEFAULT_ALLOCATOR, Self::addr_of(res)),
    {
        match new_object(DEFAULT_ALLOCATOR, create) {
            Ok(inner) => Ok(RenderState { inner }),
            Err(e) => Err(e),
        }
    }

    /// The address of the render state.
    pub fn as_raw(&self) -> (res: usize)
        ensures
            res == self.addr(),
    {
        self.inner.as_raw()
    }

    /// Update the render state from a terminal.
    pub fn update<H>(
        &mut self,
        terminal: &mut Terminal<H>,
        update: impl FnOnce(usize, usize) -> i32,
    ) -> (res: Result<()>)
        requires
            update.requires((old(self).addr(), old(terminal).addr())),
        ensures
            *final(self) == *old(self),
            *final(terminal) == *old(terminal),
            exists|code: i32| #[trigger]
                update.ensures((old(self).addr(), old(terminal).addr()), code) && res == outcome(code),
    {
        from_result(update(self.as_raw(), terminal.as_raw()))
    }

    /// The number of the global dirty state.
    pub fn dirty(
        &self,
        query: impl FnOnce(usize, RenderStateData) -> Reply<u32>,
    ) -> (res: Result<u32>)
        requires
            query.requires((self.addr(), RenderStateData::Dirty)),
        ensures
            answered(query, self.addr(), RenderStateData::Dirty, res),
    {
        get(self.as_raw(), RenderStateData::Dirty, query)
    }

    /// The viewport width.
    pub fn cols(
        &self,
        query: impl FnOnce(usize, RenderStateData) -> Reply<u16>,
    ) -> (res: Result<u16>)
        requires
            query.requires((self.addr(), RenderStateData::Cols)),
        ensures
            answered(query, self.addr(), RenderStateData::Cols, res),
    {
        get(self.as_raw(), RenderStateData::Cols, query)
    }

    /// The viewport height.
    pub fn rows(
        &self,
        query: impl FnOnce(usize, RenderStateData) -> Reply<u16>,
    ) -> (res: Result<u16>)
        requires
            query.requires((self.addr(), RenderStateData::Rows)),
        ensures
            answered(query, self.addr(), RenderStateData::Rows, res),
    {
        get(self.as_raw(), RenderStateData::Rows, query)
    }

    /// Start over `iter` at the rows of the render state.
    pub fn populate_row_iterator(
        &self,
        iter: &mut RenderStateRowIterator,
        populate: impl FnOnce(usize, usize) -> i32,
    ) -> (res: Result<()>)
        requires
            populate.requires((self.addr(), old(iter).addr())),
        ensures
            *final(iter) == *old(iter),
            exists|code: i32| #[trigger]
                populate.ensures((self.addr(), old(iter).addr()), code) && res == outcome(code),
    {
        from_result(populate(self.as_raw(), iter.as_raw()))
    }

    /// Whether the cursor is visible.
    pub fn cursor_visible(
        &self,
        query: impl FnOnce(usize, RenderStateData) -> Reply<bool>,
    ) -> (res: Result<bool>)
        requires
            query.requires((self.addr(), RenderStateData::CursorVisible)),
        ensures
            answered(query, self.addr(), RenderStateData::CursorVisible, res),
    {
        get(self.as_raw(), RenderStateData::CursorVisible, query)
    }

    /// Whether the cursor is within the viewport.
    pub fn cursor_viewport_has_value(
        &self,
        query: impl FnOnce(usize, RenderStateData) -> Reply<bool>,
    ) -> (res: Result<bool>)
        requires
            query.requires((self.addr(), RenderStateData::CursorViewportHasValue)),
        ensures
            answered(query, self.addr(), RenderStateData::CursorViewportHasValue, res),
    {
        get(self.as_raw(), RenderStateData::CursorViewportHasValue, query)
    }

    /// The column of the cursor in the viewport.
    pub fn cursor_viewport_x(
        &self,
        query: impl FnOnce(usize, RenderStateData) -> Reply<u16>,
    ) -> (res: Result<u16>)
        requires
            query.requires((self.addr(), RenderStateData::CursorViewportX)),
        ensures
            answered(query, self.addr(), RenderStateData::CursorViewportX, res),
    {
        get(self.as_raw(), RenderStateData::CursorViewportX, query)
    }

    /// The row of the cursor in the viewport.
    pub fn cursor_viewport_y(
        &self,
        query: impl FnOnce(usize, RenderStateData) -> Reply<u16>,
    ) -> (res: Result<u16>)
        requires
            query.requires((self.addr(), RenderStateData::CursorViewportY)),
        ensures
            answered(query, self.addr(), RenderStateData::CursorViewportY, res),
    {
        get(self.as_raw(), RenderStateData::CursorViewportY, query)
    }

    /// The colors of the render state.
    pub fn colors_get(
        &self,
        query: impl FnOnce(usize) -> Reply<RawColors>,
    ) -> (res: Result<RawColors>)
        requires
            query.requires((self.addr(),)),
        ensures
            exists|reply: Reply<RawColors>| #[trigger]
                query.ensures((self.addr(),), reply) && res == reply.outcome(),
    {
        query(self.as_raw()).into_result()
    }

    /// Set the global dirty state by its number.
    pub fn set_dirty(
        &mut self,
        dirty: u32,
        change: impl FnOnce(usize, RenderStateOption, u32) -> i32,
    ) -> (res: Result<()>)
        requires
            change.requires((old(self).addr(), RenderStateOption::Dirty, dirty)),
        ensures
            *final(self) == *old(self),
            accepted(change, old(self).addr(), RenderStateOption::Dirty, dirty, res),
    {
        put(self.as_raw(), RenderStateOption::Dirty, dirty, change)
    }
}

/// An iterator over the rows of a render state.
#[derive(Debug)]
pub struct RenderStateRowIterator {
    inner: Object,
}

impl RenderStateRowIterator {
    /// The address of the row iterator.
    pub closed spec fn addr(&self) -> usize {
        self.inner.addr()
    }

    /// The address that a constructor's result holds, or its error.
    pub open spec fn addr_of(res: Result<Self>) -> Result<usize> {
        match res {
            Ok(value) => Ok(value.addr()),
            Err(e) => Err(e),
        }
    }

    /// Create a new row iterator.
    pub fn new(create: impl FnOnce(usize) -> NewReply) -> (res: Result<Self>)
        requires
            create.requires((DEFAULT_ALLOCATOR,)),
        ensures
            created(create, DEFAULT_ALLOCATOR, Self::addr_of(res)),
    {
        match new_object(DEFAULT_ALLOCATOR, create) {
            Ok(inner) => Ok(RenderStateRowIterator { inner }),
            Err(e) => Err(e),
        }
    }

    /// The address of the row iterator.
    pub fn as_raw(&self) -> (res: usize)
        ensures
            res == self.addr(),
    {
        self.inner.as_raw()
    }

    /// Advance to the next row; returns whether there is one.
    pub fn advance(&mut self, advance: impl FnOnce(usize) -> bool) -> (res: bool)
        requires
            advance.requires((old(self).addr(),)),
        ensures
            *final(self) == *old(self),
            advance.ensures((old(self).addr(),), res),
    {
        advance(self.as_raw())
    }

    /// Whether the current row is dirty.
    pub fn dirty(
        &self,
        query: impl FnOnce(usize, IterationRowData) -> Reply<bool>,
    ) -> (res: Result<bool>)
        requires
            query.requires((self.addr(), IterationRowData::Dirty)),
        ensures
            answered(query, self.addr(), IterationRowData::Dirty, res),
    {
        get(self.as_raw(), IterationRowData::Dirty, query)
    }

    /// The current row itself.
    pub fn raw_row(
        &self,
        query: impl FnOnce(usize, IterationRowData) -> Reply<u64>,
    ) -> (res: Result<u64>)
        requires
            query.requires((self.addr(), IterationRowData::Raw)),
        ensures
            answered(query, self.addr(), IterationRowData::Raw, res),
    {
        get(self.as_raw(), IterationRowData::Raw, query)
    }

    /// Start over `cells` at the cells of the current row.
    pub fn populate_cells(
        &self,
        cells: &mut RenderStateRowCells,
        populate: impl FnOnce(usize, usize) -> i32,
    ) -> (res: Result<()>)
        requires
            populate.requires((self.addr(), old(cells).addr())),
        ensures
            *final(cells) == *old(cells),
            exists|code: i32| #[trigger]
                populate.ensures((self.addr(), old(cells).addr()), code) && res == outcome(code),
    {
        from_result(populate(self.as_raw(), cells.as_raw()))
    }

    /// Set whether the current row is dirty.
    pub fn set_dirty(
        &mut self,
        dirty: bool,
        change: impl FnOnce(usize, IterationRowOption, bool) -> i32,
    ) -> (res: Result<()>)
        requires
            change.requires((old(self).addr(), IterationRowOption::Dirty, dirty)),
        ensures
            *final(self) == *old(self),
            accepted(change, old(self).addr(), IterationRowOption::Dirty, dirty, res),
    {
        put(self.as_raw(), IterationRowOption::Dirty, dirty, change)
    }

    /// The rows that are left, one after the other.
    pub fn rows<'a>(&'a mut self) -> (res: RenderStateRows<'a>)
        ensures
            res.addr() == old(self).addr(),
            final(self).addr() == old(self).addr(),
    {
        RenderStateRows { iter: &*self }
    }
}

/// The rows that are left of a [`RenderStateRowIterator`].
#[derive(Debug)]
pub struct RenderStateRows<'a> {
    iter: &'a RenderStateRowIterator,
}

impl<'a> RenderStateRows<'a> {
    /// The address of the row iterator.
    pub closed spec fn addr(&self) -> usize {
        self.iter.addr()
    }

    /// The address of the row iterator.
    pub fn as_raw(&self) -> (res: usize)
        ensures
            res == self.addr(),
    {
        self.iter.as_raw()
    }

    /// The next row, if there is one.
    pub fn next(&mut self, advance: impl FnOnce(usize) -> bool) -> (res: Option<RenderStateRow<'a>>)
        requires
            advance.requires((old(self).addr(),)),
        ensures
            *final(self) == *old(self),
            advance.ensures((old(self).addr(),), res is Some),
            res matches Some(item) ==> item.addr() == old(self).addr(),
    {
        if advance(self.as_raw()) {
            Some(RenderStateRow { iter: self.iter })
        } else {
            None
        }
    }
}

/// View into the row that [`RenderStateRows`] is at.
///
/// This is a cursor view over the underlying iterator state, not a copied row snapshot. Advancing the
/// parent iterator changes which row this view points at.
#[derive(Debug)]
pub struct RenderStateRow<'a> {
    iter: &'a RenderStateRowIterator,
}

impl<'a> RenderStateRow<'a> {
    /// The address of the row iterator.
    pub closed spec fn addr(&self) -> usize {
        self.iter.addr()
    }

    /// The address of the row iterator.
    pub fn as_raw(&self) -> (res: usize)
        ensures
            res == self.addr(),
    {
        self.iter.as_raw()
    }

    /// Whether the current row is dirty.
    pub fn dirty(
        &self,
        query: impl FnOnce(usize, IterationRowData) -> Reply<bool>,
    ) -> (res: Result<bool>)
        requires
            query.requires((self.addr(), IterationRowData::Dirty)),
        ensures
            answered(query, self.addr(), IterationRowData::Dirty, res),
    {
        get(self.as_raw(), IterationRowData::Dirty, query)
    }

    /// The current row itself.
    pub fn raw_row(
        &self,
        query: impl FnOnce(usize, IterationRowData) -> Reply<u64>,
    ) -> (res: Result<u64>)
        requires
            query.requires((self.addr(), IterationRowData::Raw)),
        ensures
            answered(query, self.addr(), IterationRowData::Raw, res),
    {
        get(self.as_raw(), IterationRowData::Raw, query)
    }

    /// Start over `cells` at the cells of the current row.
    pub fn populate_cells(
        &self,
        cells: &mut RenderStateRowCells,
        populate: impl FnOnce(usize, usize) -> i32,
    ) -> (res: Result<()>)
        requires
            populate.requires((self.addr(), old(cells).addr())),
        ensures
            *final(cells) == *old(cells),
            exists|code: i32| #[trigger]
                populate.ensures((self.addr(), old(cells).addr()), code) && res == outcome(code),
    {
        from_result(populate(self.as_raw(), cells.as_raw()))
    }

    /// Set whether the current row is dirty.
    pub fn set_dirty(
        &self,
        dirty: bool,
        change: impl FnOnce(usize, IterationRowOption, bool) -> i32,
    ) -> (res: Result<()>)
        requires
            change.requires((self.addr(), IterationRowOption::Dirty, dirty)),
        ensures
            accepted(change, self.addr(), IterationRowOption::Dirty, dirty, res),
    {
        put(self.as_raw(), IterationRowOption::Dirty, dirty, change)
    }
}

/// An iterator over the cells of a row.
#[derive(Debug)]
pub struct RenderStateRowCells {
    inner: Object,
}

impl RenderStateRowCells {
    /// The address of the cell iterator.
    pub closed spec fn addr(&self) -> usize {
        self.inner.addr()
    }

    /// The address that a constructor's result holds, or its error.
    pub open spec fn addr_of(res: Result<Self>) -> Result<usize> {
        match res {
            Ok(value) => Ok(value.addr()),
            Err(e) => Err(e),
        }
    }

    /// Create a new cell iterator.
    pub fn new(create: impl FnOnce(usize) -> NewReply) -> (res: Result<Self>)
        requires
            create.requires((DEFAULT_ALLOCATOR,)),
        ensures
            created(create, DEFAULT_ALLOCATOR, Self::addr_of(res)),
    {
        match new_object(DEFAULT_ALLOCATOR, create) {
            Ok(inner) => Ok(RenderStateRowCells { inner }),
            Err(e) => Err(e),
        }
    }

    /// The address of the cell iterator.
    pub fn as_raw(&self) -> (res: usize)
        ensures
            res == self.addr(),
    {
        self.inner.as_raw()
    }

    /// Advance to the next cell; returns whether there is one.
    pub fn advance(&mut self, advance: impl FnOnce(usize) -> bool) -> (res: bool)
        requires
            advance.requires((old(self).addr(),)),
        ensures
            *final(self) == *old(self),
            advance.ensures((old(self).addr(),), res),
    {
        advance(self.as_raw())
    }

    /// Go to the cell in column `x`.
    pub fn select(&mut self, x: u16, select: impl FnOnce(usize, u16) -> i32) -> (res: Result<()>)
        requires
            select.requires((old(self).addr(), x)),
        ensures
            *final(self) == *old(self),
            exists|code: i32| #[trigger]
                select.ensures((old(self).addr(), x), code) && res == outcome(code),
    {
        from_result(select(self.as_raw(), x))
    }

    /// The current cell itself.
    pub fn raw_cell(
        &self,
        query: impl FnOnce(usize, IterationCellData) -> Reply<u64>,
    ) -> (res: Result<u64>)
        requires
            query.requires((self.addr(), IterationCellData::Raw)),
        ensures
            answered(query, self.addr(), IterationCellData::Raw, res),
    {
        get(self.as_raw(), IterationCellData::Raw, query)
    }

    /// The style of the current cell, as the engine reports it.
    pub fn style(
        &self,
        query: impl FnOnce(usize, IterationCellData) -> Reply<RawStyle>,
    ) -> (res: Result<RawStyle>)
        requires
            query.requires((self.addr(), IterationCellData::Style)),
        ensures
            answered(query, self.addr(), IterationCellData::Style, res),
    {
        get(self.as_raw(), IterationCellData::Style, query)
    }

    /// How many codepoints the current cell has.
    pub fn graphemes_len(
        &self,
        query: impl FnOnce(usize, IterationCellData) -> Reply<u32>,
    ) -> (res: Result<u32>)
        requires
            query.requires((self.addr(), IterationCellData::GraphemesLen)),
        ensures
            answered(query, self.addr(), IterationCellData::GraphemesLen, res),
    {
        get(self.as_raw(), IterationCellData::GraphemesLen, query)
    }

    /// Write the codepoints of the current cell to the front of the buffer, which has to hold as
    /// many as [`graphemes_len`](Self::graphemes_len) says.
    pub fn graphemes_buf(
        &self,
        buf: &mut [char],
        read: impl FnOnce(usize, usize) -> BufReply<char>,
    ) -> (res: Result<()>)
        requires
            read.requires((self.addr(), old(buf)@.len() as usize)),
            forall|reply: BufReply<char>| #[trigger]
                read.ensures((self.addr(), old(buf)@.len() as usize), reply) ==> reply.fits(
                    old(buf)@.len() as usize,
                ),
        ensures
            exists|reply: BufReply<char>|
                {
                    &&& #[trigger] read.ensures((self.addr(), old(buf)@.len() as usize), reply)
                    &&& res == outcome(reply.code)
                    &&& final(buf)@ == overwritten(old(buf)@, reply.out@)
                },
    {
        let reply = read(self.as_raw(), buf.len());
        overwrite(buf, &reply.out);
        from_result(reply.code)
    }

    /// The cells that are left, one after the other.
    pub fn cells<'a>(&'a mut self) -> (res: RenderStateCells<'a>)
        ensures
            res.addr() == old(self).addr(),
            final(self).addr() == old(self).addr(),
    {
        RenderStateCells { iter: &*self }
    }
}

/// The cells that are left of a [`RenderStateRowCells`].
#[derive(Debug)]
pub struct RenderStateCells<'a> {
    iter: &'a RenderStateRowCells,
}

impl<'a> RenderStateCells<'a> {
    /// The address of the cell iterator.
    pub closed spec fn addr(&self) -> usize {
        self.iter.addr()
    }

    /// The address of the cell iterator.
    pub fn as_raw(&self) -> (res: usize)
        ensures
            res == self.addr(),
    {
        self.iter.as_raw()
    }

    /// The next cell, if there is one.
    pub fn next(
        &mut self,
        advance: impl FnOnce(usize) -> bool,
    ) -> (res: Option<RenderStateCell<'a>>)
        requires
            advance.requires((old(self).addr(),)),
        ensures
            *final(self) == *old(self),
            advance.ensures((old(self).addr(),), res is Some),
            res matches Some(item) ==> item.addr() == old(self).addr(),
    {
        if advance(self.as_raw()) {
            Some(RenderStateCell { iter: self.iter })
        } else {
            None
        }
    }
}

/// View into the cell that [`RenderStateCells`] is at.
///
/// This is a cursor view over the underlying iterator state, not a copied cell snapshot. Advancing
/// the parent iterator changes which cell this view points at.
#[derive(Debug)]
pub struct RenderStateCell<'a> {
    iter: &'a RenderStateRowCells,
}

impl<'a> RenderStateCell<'a> {
    /// The address of the cell iterator.
    pub closed spec fn addr(&self) -> usize {
        self.iter.addr()
    }

    /// The address of the cell iterator.
    pub fn as_raw(&self) -> (res: usize)
        ensures
            res == self.addr(),
    {
        self.iter.as_raw()
    }

    /// The current cell itself.
    pub fn raw_cell(
        &self,
        query: impl FnOnce(usize, IterationCellData) -> Reply<u64>,
    ) -> (res: Result<u64>)
        requires
            query.requires((self.addr(), IterationCellData::Raw)),
        ensures
            answered(query, self.addr(), IterationCellData::Raw, res),
    {
        get(self.as_raw(), IterationCellData::Raw, query)
    }

    /// The style of the current cell, as the engine reports it.
    pub fn style(
        &self,
        query: impl FnOnce(usize, IterationCellData) -> Reply<RawStyle>,
    ) -> (res: Result<RawStyle>)
        requires
            query.requires((self.addr(), IterationCellData::Style)),
        ensures
            answered(query, self.addr(), IterationCellData::Style, res),
    {
        get(self.as_raw(), IterationCellData::Style, query)
    }

    /// How many codepoints the current cell has.
    pub fn graphemes_len(
        &self,
        query: impl FnOnce(usize, IterationCellData) -> Reply<u32>,
    ) -> (res: Result<u32>)
        requires
            query.requires((self.addr(), IterationCellData::GraphemesLen)),
        ensures
            answered(query, self.addr(), IterationCellData::GraphemesLen, res),
    {
        get(self.as_raw(), IterationCellData::GraphemesLen, query)
    }

    /// Write the codepoints of the current cell to the front of the buffer, which has to hold as
    /// many as [`graphemes_len`](Self::graphemes_len) says.
    pub fn graphemes_buf(
        &self,
        buf: &mut [char],
        read: impl FnOnce(usize, usize) -> BufReply<char>,
    ) -> (res: Result<()>)
        requires
            read.requires((self.addr(), old(buf)@.len() as usize)),
            forall|reply: BufReply<char>| #[trigger]
                read.ensures((self.addr(), old(buf)@.len() as usize), reply) ==> reply.fits(
                    old(buf)@.len() as usize,
                ),
        ensures
            exists|reply: BufReply<char>|
                {
                    &&& #[trigger] read.ensures((self.addr(), old(buf)@.len() as usize), reply)
                    &&& res == outcome(reply.code)
                    &&& final(buf)@ == overwritten(old(buf)@, reply.out@)
                },
    {
        let reply = read(self.as_raw(), buf.len());
        overwrite(buf, &reply.out);
        from_result(reply.code)
    }
}

/// A key event.
#[derive(Debug)]
pub struct KeyEvent {
    inner: Object,
}

impl KeyEvent {
    /// The address of the key event.
    pub closed spec fn addr(&self) -> usize {
        self.inner.addr()
    }

    /// The address that a constructor's result holds, or its error.
    pub open spec fn addr_of(res: Result<Self>) -> Result<usize> {
        match res {
            Ok(value) => Ok(value.addr()),
            Err(e) => Err(e),
        }
    }

    /// Create a new key event.
    pub fn new(create: impl FnOnce(usize) -> NewReply) -> (res: Result<Self>)
        requires
            create.requires((DEFAULT_ALLOCATOR,)),
        ensures
            created(create, DEFAULT_ALLOCATOR, Self::addr_of(res)),
    {
        match new_object(DEFAULT_ALLOCATOR, create) {
            Ok(inner) => Ok(KeyEvent { inner }),
            Err(e) => Err(e),
        }
    }

    /// The address of the key event.
    pub fn as_raw(&self) -> (res: usize)
        ensures
            res == self.addr(),
    {
        self.inner.as_raw()
    }

    /// Set the number of the action.
    pub fn set_action<S>(
        &mut self,
        action: u32,
        engine: &mut S,
        set: impl FnOnce(&S, usize, u32) -> S,
    )
        requires
            set.requires((&*old(engine), old(self).addr(), action)),
        ensures
            *final(self) == *old(self),
            set.ensures((&*old(engine), old(self).addr(), action), *final(engine)),
    {
        *engine = set(&*engine, self.as_raw(), action)
    }

    /// The number of the action.
    pub fn get_action<S>(&self, engine: &S, get: impl FnOnce(&S, usize) -> u32) -> (res: u32)
        requires
            get.requires((engine, self.addr())),
        ensures
            get.ensures((engine, self.addr()), res),
    {
        get(engine, self.as_raw())
    }

    /// Set the number of the key.
    pub fn set_key<S>(&mut self, key: u32, engine: &mut S, set: impl FnOnce(&S, usize, u32) -> S)
        requires
            set.requires((&*old(engine), old(self).addr(), key)),
        ensures
            *final(self) == *old(self),
            set.ensures((&*old(engine), old(self).addr(), key), *final(engine)),
    {
        *engine = set(&*engine, self.as_raw(), key)
    }

    /// The number of the key.
    pub fn get_key<S>(&self, engine: &S, get: impl FnOnce(&S, usize) -> u32) -> (res: u32)
        requires
            get.requires((engine, self.addr())),
        ensures
            get.ensures((engine, self.addr()), res),
    {
        get(engine, self.as_raw())
    }

    /// Set the bits of the modifiers.
    pub fn set_mods<S>(&mut self, mods: u16, engine: &mut S, set: impl FnOnce(&S, usize, u16) -> S)
        requires
            set.requires((&*old(engine), old(self).addr(), mods)),
        ensures
            *final(self) == *old(self),
            set.ensures((&*old(engine), old(self).addr(), mods), *final(engine)),
    {
        *engine = set(&*engine, self.as_raw(), mods)
    }

    /// The bits of the modifiers.
    pub fn get_mods<S>(&self, engine: &S, get: impl FnOnce(&S, usize) -> u16) -> (res: u16)
        requires
            get.requires((engine, self.addr())),
        ensures
            get.ensures((engine, self.addr()), res),
    {
        get(engine, self.as_raw())
    }

    /// Set the bits of the consumed modifiers.
    pub fn set_consumed_mods<S>(
        &mut self,
        mods: u16,
        engine: &mut S,
        set: impl FnOnce(&S, usize, u16) -> S,
    )
        requires
            set.requires((&*old(engine), old(self).addr(), mods)),
        ensures
            *final(self) == *old(self),
            set.ensures((&*old(engine), old(self).addr(), mods), *final(engine)),
    {
        *engine = set(&*engine, self.as_raw(), mods)
    }

    /// The bits of the consumed modifiers.
    pub fn get_consumed_mods<S>(&self, engine: &S, get: impl FnOnce(&S, usize) -> u16) -> (res: u16)
        requires
            get.requires((engine, self.addr())),
        ensures
            get.ensures((engine, self.addr()), res),
    {
        get(engine, self.as_raw())
    }

    /// Set whether the event is part of a composition sequence.
    pub fn set_composing<S>(
        &mut self,
        composing: bool,
        engine: &mut S,
        set: impl FnOnce(&S, usize, bool) -> S,
    )
        requires
            set.requires((&*old(engine), old(self).addr(), composing)),
        ensures
            *final(self) == *old(self),
            set.ensures((&*old(engine), old(self).addr(), composing), *final(engine)),
    {
        *engine = set(&*engine, self.as_raw(), composing)
    }

    /// Whether the event is part of a composition sequence.
    pub fn get_composing<S>(&self, engine: &S, get: impl FnOnce(&S, usize) -> bool) -> (res: bool)
        requires
            get.requires((engine, self.addr())),
        ensures
            get.ensures((engine, self.addr()), res),
    {
        get(engine, self.as_raw())
    }

    /// Set the UTF-8 text that the event generated, or clear it.
    pub fn set_utf8<S>(
        &mut self,
        text: Option<&[u8]>,
        engine: &mut S,
        set: impl FnOnce(&S, usize, Option<&[u8]>) -> S,
    )
        requires
            set.requires((&*old(engine), old(self).addr(), text)),
        ensures
            *final(self) == *old(self),
            set.ensures((&*old(engine), old(self).addr(), text), *final(engine)),
    {
        *engine = set(&*engine, self.as_raw(), text)
    }

    /// Set the unshifted Unicode codepoint.
    pub fn set_unshifted_codepoint<S>(
        &mut self,
        codepoint: u32,
        engine: &mut S,
        set: impl FnOnce(&S, usize, u32) -> S,
    )
        requires
            set.requires((&*old(engine), old(self).addr(), codepoint)),
        ensures
            *final(self) == *old(self),
            set.ensures((&*old(engine), old(self).addr(), codepoint), *final(engine)),
    {
        *engine = set(&*engine, self.as_raw(), codepoint)
    }

    /// The unshifted Unicode codepoint.
    pub fn get_unshifted_codepoint<S>(
        &self,
        engine: &S,
        get: impl FnOnce(&S, usize) -> u32,
    ) -> (res: u32)
        requires
            get.requires((engine, self.addr())),
        ensures
            get.ensures((engine, self.addr()), res),
    {
        get(engine, self.as_raw())
    }
}

/// A key encoder.
#[derive(Debug)]
pub struct KeyEncoder {
    inner: Object,
}

impl KeyEncoder {
    /// The address of the key encoder.
    pub closed spec fn addr(&self) -> usize {
        self.inner.addr()
    }

    /// The address that a constructor's result holds, or its error.
    pub open spec fn addr_of(res: Result<Self>) -> Result<usize> {
        match res {
            Ok(value) => Ok(value.addr()),
            Err(e) => Err(e),
        }
    }

    /// Create a new key encoder.
    pub fn new(create: impl FnOnce(usize) -> NewReply) -> (res: Result<Self>)
        requires
            create.requires((DEFAULT_ALLOCATOR,)),
        ensures
            created(create, DEFAULT_ALLOCATOR, Self::addr_of(res)),
    {
        match new_object(DEFAULT_ALLOCATOR, create) {
            Ok(inner) => Ok(KeyEncoder { inner }),
            Err(e) => Err(e),
        }
    }

    /// The address of the key encoder.
    pub fn as_raw(&self) -> (res: usize)
        ensures
            res == self.addr(),
    {
        self.inner.as_raw()
    }

    /// Set an option.
    pub fn setopt<S, T>(
        &mut self,
        option: crate::key::EncoderOption,
        value: T,
        engine: &mut S,
        setopt: impl FnOnce(&S, usize, crate::key::EncoderOption, T) -> S,
    )
        requires
            setopt.requires((&*old(engine), old(self).addr(), option, value)),
        ensures
            *final(self) == *old(self),
            setopt.ensures((&*old(engine), old(self).addr(), option, value), *final(engine)),
    {
        *engine = setopt(&*engine, self.as_raw(), option, value)
    }

    /// Set the options from a terminal's current state.
    pub fn setopt_from_terminal<S, H>(
        &mut self,
        terminal: &Terminal<H>,
        engine: &mut S,
        sync: impl FnOnce(&S, usize, usize) -> S,
    )
        requires
            sync.requires((&*old(engine), old(self).addr(), terminal.addr())),
        ensures
            *final(self) == *old(self),
            sync.ensures((&*old(engine), old(self).addr(), terminal.addr()), *final(engine)),
    {
        *engine = sync(&*engine, self.as_raw(), terminal.as_raw())
    }

    /// Encode a key event into a terminal escape sequence.
    ///
    /// The bytes are written to the front of the buffer; the result is how many they are. Not all
    /// key events produce output.
    ///
    /// If the buffer is too small, this returns `OutOfSpace` with the size that is needed.
    pub fn encode<S>(
        &mut self,
        event: &KeyEvent,
        buf: &mut [u8],
        engine: &mut S,
        encode: impl FnOnce(&S, usize, usize, usize) -> (S, BufReply<u8>),
    ) -> (res: Result<usize>)
        requires
            writes(
                encode,
                old(self).addr(),
                event.addr(),
                *old(engine),
                old(buf)@.len() as usize,
            ),
        ensures
            *final(self) == *old(self),
            written(
                encode,
                old(self).addr(),
                event.addr(),
                *old(engine),
                old(buf)@,
                final(buf)@,
                *final(engine),
                res,
            ),
    {
        encode_to_buf(self.as_raw(), event.as_raw(), buf, engine, encode)
    }
}

/// A mouse event.
#[derive(Debug)]
pub struct MouseEvent {
    inner: Object,
}

impl MouseEvent {
    /// The address of the mouse event.
    pub closed spec fn addr(&self) -> usize {
        self.inner.addr()
    }

    /// The address that a constructor's result holds, or its error.
    pub open spec fn addr_of(res: Result<Self>) -> Result<usize> {
        match res {
            Ok(value) => Ok(value.addr()),
            Err(e) => Err(e),
        }
    }

    /// Create a new mouse event.
    pub fn new(create: impl FnOnce(usize) -> NewReply) -> (res: Result<Self>)
        requires
            create.requires((DEFAULT_ALLOCATOR,)),
        ensures
            created(create, DEFAULT_ALLOCATOR, Self::addr_of(res)),
    {
        match new_object(DEFAULT_ALLOCATOR, create) {
            Ok(inner) => Ok(MouseEvent { inner }),
            Err(e) => Err(e),
        }
    }

    /// The address of the mouse event.
    pub fn as_raw(&self) -> (res: usize)
        ensures
            res == self.addr(),
    {
        self.inner.as_raw()
    }

    /// Set the number of the action.
    pub fn set_action<S>(
        &mut self,
        action: u32,
        engine: &mut S,
        set: impl FnOnce(&S, usize, u32) -> S,
    )
        requires
            set.requires((&*old(engine), old(self).addr(), action)),
        ensures
            *final(self) == *old(self),
            set.ensures((&*old(engine), old(self).addr(), action), *final(engine)),
    {
        *engine = set(&*engine, self.as_raw(), action)
    }

    /// The number of the action.
    pub fn get_action<S>(&self, engine: &S, get: impl FnOnce(&S, usize) -> u32) -> (res: u32)
        requires
            get.requires((engine, self.addr())),
        ensures
            get.ensures((engine, self.addr()), res),
    {
        get(engine, self.as_raw())
    }

    /// Set the number of the button.
    pub fn set_button<S>(
        &mut self,
        button: u32,
        engine: &mut S,
        set: impl FnOnce(&S, usize, u32) -> S,
    )
        requires
            set.requires((&*old(engine), old(self).addr(), button)),
        ensures
            *final(self) == *old(self),
            set.ensures((&*old(engine), old(self).addr(), button), *final(engine)),
    {
        *engine = set(&*engine, self.as_raw(), button)
    }

    /// Clear the button.
    pub fn clear_button<S>(&mut self, engine: &mut S, clear: impl FnOnce(&S, usize) -> S)
        requires
            clear.requires((&*old(engine), old(self).addr())),
        ensures
            *final(self) == *old(self),
            clear.ensures((&*old(engine), old(self).addr()), *final(engine)),
    {
        *engine = clear(&*engine, self.as_raw())
    }

    /// The number of the button, if there is one.
    pub fn get_button<S>(
        &self,
        engine: &S,
        get: impl FnOnce(&S, usize) -> Option<u32>,
    ) -> (res: Option<u32>)
        requires
            get.requires((engine, self.addr())),
        ensures
            get.ensures((engine, self.addr()), res),
    {
        get(engine, self.as_raw())
    }

    /// Set the bits of the modifiers.
    pub fn set_mods<S>(&mut self, mods: u16, engine: &mut S, set: impl FnOnce(&S, usize, u16) -> S)
        requires
            set.requires((&*old(engine), old(self).addr(), mods)),
        ensures
            *final(self) == *old(self),
            set.ensures((&*old(engine), old(self).addr(), mods), *final(engine)),
    {
        *engine = set(&*engine, self.as_raw(), mods)
    }

    /// The bits of the modifiers.
    pub fn get_mods<S>(&self, engine: &S, get: impl FnOnce(&S, usize) -> u16) -> (res: u16)
        requires
            get.requires((engine, self.addr())),
        ensures
            get.ensures((engine, self.addr()), res),
    {
        get(engine, self.as_raw())
    }

    /// Set the position.
    pub fn set_position<S>(
        &mut self,
        position: Position,
        engine: &mut S,
        set: impl FnOnce(&S, usize, Position) -> S,
    )
        requires
            set.requires((&*old(engine), old(self).addr(), position)),
        ensures
            *final(self) == *old(self),
            set.ensures((&*old(engine), old(self).addr(), position), *final(engine)),
    {
        *engine = set(&*engine, self.as_raw(), position)
    }

    /// The position.
    pub fn get_position<S>(
        &self,
        engine: &S,
        get: impl FnOnce(&S, usize) -> Position,
    ) -> (res: Position)
        requires
            get.requires((engine, self.addr())),
        ensures
            get.ensures((engine, self.addr()), res),
    {
        get(engine, self.as_raw())
    }
}

/// A mouse encoder.
#[derive(Debug)]
pub struct MouseEncoder {
    inner: Object,
}

impl MouseEncoder {
    /// The address of the mouse encoder.
    pub closed spec fn addr(&self) -> usize {
        self.inner.addr()
    }

    /// The address that a constructor's result holds, or its error.
    pub open spec fn addr_of(res: Result<Self>) -> Result<usize> {
        match res {
            Ok(value) => Ok(value.addr()),
            Err(e) => Err(e),
        }
    }

    /// Create a new mouse encoder.
    pub fn new(create: impl FnOnce(usize) -> NewReply) -> (res: Result<Self>)
        requires
            create.requires((DEFAULT_ALLOCATOR,)),
        ensures
            created(create, DEFAULT_ALLOCATOR, Self::addr_of(res)),
    {
        match new_object(DEFAULT_ALLOCATOR, create) {
            Ok(inner) => Ok(MouseEncoder { inner }),
            Err(e) => Err(e),
        }
    }

    /// The address of the mouse encoder.
    pub fn as_raw(&self) -> (res: usize)
        ensures
            res == self.addr(),
    {
        self.inner.as_raw()
    }

    /// Clear motion deduplication state.
    pub fn reset<S>(&mut self, engine: &mut S, reset: impl FnOnce(&S, usize) -> S)
        requires
            reset.requires((&*old(engine), old(self).addr())),
        ensures
            *final(self) == *old(self),
            reset.ensures((&*old(engine), old(self).addr()), *final(engine)),
    {
        *engine = reset(&*engine, self.as_raw())
    }

    /// Set an option.
    pub fn setopt<S, T>(
        &mut self,
        option: crate::mouse::EncoderOption,
        value: T,
        engine: &mut S,
        setopt: impl FnOnce(&S, usize, crate::mouse::EncoderOption, T) -> S,
    )
        requires
            setopt.requires((&*old(engine), old(self).addr(), option, value)),
        ensures
            *final(self) == *old(self),
            setopt.ensures((&*old(engine), old(self).addr(), option, value), *final(engine)),
    {
        *engine = setopt(&*engine, self.as_raw(), option, value)
    }

    /// Set the options from a terminal's current state.
    pub fn setopt_from_terminal<S, H>(
        &mut self,
        terminal: &Terminal<H>,
        engine: &mut S,
        sync: impl FnOnce(&S, usize, usize) -> S,
    )
        requires
            sync.requires((&*old(engine), old(self).addr(), terminal.addr())),
        ensures
            *final(self) == *old(self),
            sync.ensures((&*old(engine), old(self).addr(), terminal.addr()), *final(engine)),
    {
        *engine = sync(&*engine, self.as_raw(), terminal.as_raw())
    }

    /// Encode a mouse event into a terminal escape sequence.
    ///
    /// The bytes are written to the front of the buffer; the result is how many they are. Not all
    /// mouse events produce output.
    ///
    /// If the buffer is too small, this returns `OutOfSpace` with the size that is needed.
    pub fn encode<S>(
        &mut self,
        event: &MouseEvent,
        buf: &mut [u8],
        engine: &mut S,
        encode: impl FnOnce(&S, usize, usize, usize) -> (S, BufReply<u8>),
    ) -> (res: Result<usize>)
        requires
            writes(
                encode,
                old(self).addr(),
                event.addr(),
                *old(engine),
                old(buf)@.len() as usize,
            ),
        ensures
            *final(self) == *old(self),
            written(
                encode,
                old(self).addr(),
                event.addr(),
                *old(engine),
                old(buf)@,
                final(buf)@,
                *final(engine),
                res,
            ),
    {
        encode_to_buf(self.as_raw(), event.as_raw(), buf, engine, encode)
    }
}

/// The number of the kind of content of a cell.
pub fn cell_get_content_tag(
    cell: u64,
    query: impl FnOnce(u64, CellData) -> Reply<u32>,
) -> (res: Result<u32>)
    requires
        query.requires((cell, CellData::ContentTag)),
    ensures
        answered(query, cell, CellData::ContentTag, res),
{
    get(cell, CellData::ContentTag, query)
}

/// The codepoint of a cell.
pub fn cell_get_codepoint(
    cell: u64,
    query: impl FnOnce(u64, CellData) -> Reply<u32>,
) -> (res: Result<u32>)
    requires
        query.requires((cell, CellData::Codepoint)),
    ensures
        answered(query, cell, CellData::Codepoint, res),
{
    get(cell, CellData::Codepoint, query)
}

/// The palette index of a cell's background color.
pub fn cell_get_color_palette(
    cell: u64,
    query: impl FnOnce(u64, CellData) -> Reply<u8>,
) -> (res: Result<u8>)
    requires
        query.requires((cell, CellData::ColorPalette)),
    ensures
        answered(query, cell, CellData::ColorPalette, res),
{
    get(cell, CellData::ColorPalette, query)
}

/// The direct background color of a cell.
pub fn cell_get_color_rgb(
    cell: u64,
    query: impl FnOnce(u64, CellData) -> Reply<RgbColor>,
) -> (res: Result<RgbColor>)
    requires
        query.requires((cell, CellData::ColorRgb)),
    ensures
        answered(query, cell, CellData::ColorRgb, res),
{
    get(cell, CellData::ColorRgb, query)
}

} // verus!
