//! Managing [render states](RenderState) of the terminal.
use crate::error::{from_result, outcome, Error, Result};
use crate::memory::{created, new_object, Allocator, NewReply, Object, DEFAULT_ALLOCATOR};
use crate::reply::{answered, changed, get, put_in, Reply};
use crate::screen::{Cell, Row};
use crate::style::{RawStyle, RgbColor, Style};
use crate::terminal::Terminal;
use crate::text::char_from_u32;
use vstd::prelude::*;

verus! {

/// Represents the state required to render a visible screen (a viewport) of a terminal instance.
///
/// This is stateful and optimized for repeated updates from a single terminal instance and only
/// updating dirty regions of the screen. It only needs access to the terminal instance during the
/// update call.
///
/// The basic usage is: create an empty render state, update it from a terminal instance whenever
/// needed, and read from it to get the data needed to draw a frame.
///
/// # Dirty tracking
///
/// The render state keeps track of dirty state at two independent layers: a global dirty state that
/// indicates whether the entire frame is clean, partially dirty, or fully dirty, and a per-row
/// dirty state. The update call does not unset dirty state, it only updates it, and setting one
/// dirty state does not unset the other, so the user has to unset both.
#[derive(Debug)]
pub struct RenderState {
    inner: Object,
}

impl RenderState {
    /// The address of the render state.
    pub closed spec fn addr(&self) -> usize {
        self.inner.addr()
    }

    /// The address that a constructor's result holds, or its error.
    pub open spec fn addr_of(res: Result<Self>) -> Result<usize> {
        match res {
            Ok(value) => Ok(value.addr()),
            Err(e) => Err(e),
        }
    }

    /// Create a new render state.
    pub fn new(create: impl FnOnce(usize) -> NewReply) -> (res: Result<Self>)
        requires
            create.requires((DEFAULT_ALLOCATOR,)),
        ensures
            created(create, DEFAULT_ALLOCATOR, Self::addr_of(res)),
    {
        Self::new_inner(DEFAULT_ALLOCATOR, create)
    }

    /// Create a new render state with a custom allocator.
    pub fn new_with_alloc(
        alloc: &Allocator,
        create: impl FnOnce(usize) -> NewReply,
    ) -> (res: Result<Self>)
        requires
            create.requires((alloc.addr(),)),
        ensures
            created(create, alloc.addr(), Self::addr_of(res)),
    {
        Self::new_inner(alloc.to_raw(), create)
    }

    fn new_inner<F: FnOnce(usize) -> NewReply>(alloc: usize, create: F) -> (res: Result<Self>)
        requires
            create.requires((alloc,)),
        ensures
            created(create, alloc, Self::addr_of(res)),
    {
        match new_object(alloc, create) {
            Ok(inner) => Ok(RenderState { inner }),
            Err(e) => Err(e),
        }
    }

    /// The address of the render state.
    pub fn as_raw(&self) -> (res: usize)
        ensures
            res == self.addr(),
    {
        self.inner.as_raw()
    }

    /// Update the render state from a terminal.
    ///
    /// While the snapshot is in use, the render state cannot be updated again.
    pub fn update<'s, H>(
        &'s mut self,
        terminal: &Terminal<H>,
        update: impl FnOnce(usize, usize) -> i32,
    ) -> (res: Result<Snapshot<'s>>)
        requires
            update.requires((old(self).addr(), terminal.addr())),
        ensures
            *final(self) == *old(self),
            exists|code: i32| #[trigger]
                update.ensures((old(self).addr(), terminal.addr()), code) && match res {
                    Ok(snapshot) => outcome(code) is Ok && snapshot.addr() == old(self).addr(),
                    Err(e) => outcome(code) == Err::<(), Error>(e),
                },
    {
        match from_result(update(self.as_raw(), terminal.as_raw())) {
            Ok(_) => Ok(Snapshot { state: &*self }),
            Err(e) => Err(e),
        }
    }
}

/// What can be asked of a render state.
#[derive(Clone, Copy, Debug, PartialEq, Eq, Structural)]
pub enum RenderStateData {
    /// The viewport width in cells.
    Cols,
    /// The viewport height in cells.
    Rows,
    /// The global dirty state.
    Dirty,
    /// The cursor color.
    ColorCursor,
    /// Whether there is a cursor color.
    ColorCursorHasValue,
    /// The visual style of the cursor.
    CursorVisualStyle,
    /// Whether the cursor is visible.
    CursorVisible,
    /// Whether the cursor is blinking.
    CursorBlinking,
    /// Whether the cursor is at a password input field.
    CursorPasswordInput,
    /// Whether the cursor is within the viewport.
    CursorViewportHasValue,
    /// The column of the cursor in the viewport.
    CursorViewportX,
    /// The row of the cursor in the viewport.
    CursorViewportY,
    /// Whether the cursor is on the tail of a wide character.
    CursorViewportWideTail,
}

/// What can be set on a render state.
#[derive(Clone, Copy, Debug, PartialEq, Eq, Structural)]
pub enum RenderStateOption {
    /// The global dirty state.
    Dirty,
}

/// A snapshot of the render state after an update.
///
/// This guards data accessed from the render state from being accidentally modified after an
/// update.
#[derive(Debug)]
pub struct Snapshot<'s> {
    state: &'s RenderState,
}

impl<'s> Snapshot<'s> {
    /// The address of the render state.
    pub closed spec fn addr(&self) -> usize {
        self.state.addr()
    }

    /// The address of the render state.
    pub fn as_raw(&self) -> (res: usize)
        ensures
            res == self.addr(),
    {
        self.state.as_raw()
    }

    /// Get the current dirty state.
    ///
    /// The engine has to answer with a number that stands for one.
    pub fn dirty(
        &self,
        query: impl FnOnce(usize, RenderStateData) -> Reply<u32>,
    ) -> (res: Result<Dirty>)
        requires
            query.requires((self.addr(), RenderStateData::Dirty)),
            forall|reply: Reply<u32>| #[trigger]
                query.ensures((self.addr(), RenderStateData::Dirty), reply) && reply.outcome() is Ok
                    ==> Dirty::decoded(reply.value) is Ok,
        ensures
            dirty_told(query, self.addr(), res),
    {
        match get(self.as_raw(), RenderStateData::Dirty, query) {
            Ok(value) => Dirty::from_code(value),
            Err(e) => Err(e),
        }
    }

    /// Get the viewport width.
    pub fn cols(
        &self,
        query: impl FnOnce(usize, RenderStateData) -> Reply<u16>,
    ) -> (res: Result<u16>)
        requires
            query.requires((self.addr(), RenderStateData::Cols)),
        ensures
            answered(query, self.addr(), RenderStateData::Cols, res),
    {
        get(self.as_raw(), RenderStateData::Cols, query)
    }

    /// Get the viewport height.
    pub fn rows(
        &self,
        query: impl FnOnce(usize, RenderStateData) -> Reply<u16>,
    ) -> (res: Result<u16>)
        requires
            query.requires((self.addr(), RenderStateData::Rows)),
        ensures
            answered(query, self.addr(), RenderStateData::Rows, res),
    {
        get(self.as_raw(), RenderStateData::Rows, query)
    }

    /// Whether the cursor is currently visible based on terminal modes.
    pub fn cursor_visible(
        &self,
        query: impl FnOnce(usize, RenderStateData) -> Reply<bool>,
    ) -> (res: Result<bool>)
        requires
            query.requires((self.addr(), RenderStateData::CursorVisible)),
        ensures
            answered(query, self.addr(), RenderStateData::CursorVisible, res),
    {
        get(self.as_raw(), RenderStateData::CursorVisible, query)
    }

    /// Whether the cursor is currently blinking based on terminal modes.
    pub fn cursor_blinking(
        &self,
        query: impl FnOnce(usize, RenderStateData) -> Reply<bool>,
    ) -> (res: Result<bool>)
        requires
            query.requires((self.addr(), RenderStateData::CursorBlinking)),
        ensures
            answered(query, self.addr(), RenderStateData::CursorBlinking, res),
    {
        get(self.as_raw(), RenderStateData::CursorBlinking, query)
    }

    /// Whether the cursor is at a password input field.
    pub fn cursor_password_input(
        &self,
        query: impl FnOnce(usize, RenderStateData) -> Reply<bool>,
    ) -> (res: Result<bool>)
        requires
            query.requires((self.addr(), RenderStateData::CursorPasswordInput)),
        ensures
            answered(query, self.addr(), RenderStateData::CursorPasswordInput, res),
    {
        get(self.as_raw(), RenderStateData::CursorPasswordInput, query)
    }

    /// Get the visual style of the cursor.
    ///
    /// The engine has to answer with a number that stands for one.
    pub fn cursor_visual_style(
        &self,
        query: impl FnOnce(usize, RenderStateData) -> Reply<u32>,
    ) -> (res: Result<CursorVisualStyle>)
        requires
            query.requires((self.addr(), RenderStateData::CursorVisualStyle)),
            forall|reply: Reply<u32>| #[trigger]
                query.ensures((self.addr(), RenderStateData::CursorVisualStyle), reply) && reply.outcome() is Ok
                    ==> CursorVisualStyle::decoded(reply.value) is Ok,
        ensures
            exists|reply: Reply<u32>| #[trigger]
                query.ensures((self.addr(), RenderStateData::CursorVisualStyle), reply) &&
                    res == match reply.outcome() {
                    Ok(value) => CursorVisualStyle::decoded(value),
                    Err(e) => Err(e),
                },
    {
        match get(self.as_raw(), RenderStateData::CursorVisualStyle, query) {
            Ok(value) => CursorVisualStyle::from_code(value),
            Err(e) => Err(e),
        }
    }

    /// Get the cursor color that may have been explicitly set by the terminal state.
    pub fn cursor_color(
        &self,
        flag: impl FnOnce(usize, RenderStateData) -> Reply<bool>,
        color: impl FnOnce(usize, RenderStateData) -> Reply<RgbColor>,
    ) -> (res: Result<Option<RgbColor>>)
        requires
            flag.requires((self.addr(), RenderStateData::ColorCursorHasValue)),
            color.requires((self.addr(), RenderStateData::ColorCursor)),
        ensures
            exists|has: Result<bool>| #[trigger]
                answered(flag, self.addr(), RenderStateData::ColorCursorHasValue, has) && match has {
                    Ok(true) => exists|value: Result<RgbColor>| #[trigger]
                        answered(color, self.addr(), RenderStateData::ColorCursor, value) && res == match value {
                            Ok(value) => Ok(Some(value)),
                            Err(e) => Err(e),
                        },
                    Ok(false) => res == Ok::<Option<RgbColor>, Error>(None),
                    Err(e) => res == Err::<Option<RgbColor>, Error>(e),
                },
    {
        match get(self.as_raw(), RenderStateData::ColorCursorHasValue, flag) {
            Ok(true) => match get(self.as_raw(), RenderStateData::ColorCursor, color) {
                Ok(value) => Ok(Some(value)),
                Err(e) => Err(e),
            },
            Ok(false) => Ok(None),
            Err(e) => Err(e),
        }
    }

    /// Get the relative position of the cursor and other information if it is currently visible
    /// within the viewport.
    pub fn cursor_viewport(
        &self,
        flag: impl Fn(usize, RenderStateData) -> Reply<bool>,
        coord: impl Fn(usize, RenderStateData) -> Reply<u16>,
    ) -> (res: Result<Option<CursorViewport>>)
        requires
            flag.requires((self.addr(), RenderStateData::CursorViewportHasValue)),
            flag.requires((self.addr(), RenderStateData::CursorViewportWideTail)),
            coord.requires((self.addr(), RenderStateData::CursorViewportX)),
            coord.requires((self.addr(), RenderStateData::CursorViewportY)),
        ensures
            exists|has: Result<bool>, x: Result<u16>, y: Result<u16>, tail: Result<bool>|
                {
                    &&& #[trigger] viewport_answers(flag, coord, self.addr(), has, x, y, tail)
                    &&& res == viewport_of(has, x, y, tail)
                },
    {
        let ghost unasked: (Result<u16>, Result<bool>) = (
            Err(Error::InvalidValue),
            Err(Error::InvalidValue),
        );
        let has = flag(self.as_raw(), RenderStateData::CursorViewportHasValue).into_result();
        match has {
            Ok(true) => {},
            Ok(false) => {
                assert(viewport_answers(flag, coord, self.addr(), has, unasked.0, unasked.0, unasked.1));
                return Ok(None);
            },
            Err(e) => {
                assert(viewport_answers(flag, coord, self.addr(), has, unasked.0, unasked.0, unasked.1));
                return Err(e);
            },
        }
        let x = coord(self.as_raw(), RenderStateData::CursorViewportX).into_result();
        let x_value: u16 = match x {
            Ok(value) => value,
            Err(e) => {
                assert(viewport_answers(flag, coord, self.addr(), has, x, unasked.0, unasked.1));
                return Err(e);
            },
        };
        let y = coord(self.as_raw(), RenderStateData::CursorViewportY).into_result();
        let y_value: u16 = match y {
            Ok(value) => value,
            Err(e) => {
                assert(viewport_answers(flag, coord, self.addr(), has, x, y, unasked.1));
                return Err(e);
            },
        };
        let tail = flag(self.as_raw(), RenderStateData::CursorViewportWideTail).into_result();
        assert(viewport_answers(flag, coord, self.addr(), has, x, y, tail));
        match tail {
            Ok(at_wide_tail) => Ok(Some(CursorViewport { x: x_value, y: y_value, at_wide_tail })),
            Err(e) => Err(e),
        }
    }

    /// Get the colors of the render state: background, foreground, cursor and palette.
    pub fn colors(&self, query: impl FnOnce(usize) -> Reply<RawColors>) -> (res: Result<Colors>)
        requires
            query.requires((self.addr(),)),
        ensures
            exists|reply: Reply<RawColors>| #[trigger]
                query.ensures((self.addr(),), reply) && res == match reply.outcome() {
                    Ok(raw) => Ok(raw.colors()),
                    Err(e) => Err(e),
                },
    {
        match query(self.as_raw()).into_result() {
            Ok(raw) => Ok(
                Colors {
                    background: raw.background,
                    foreground: raw.foreground,
                    cursor: if raw.cursor_has_value {
                        Some(raw.cursor)
                    } else {
                        None
                    },
                    palette: raw.palette,
                },
            ),
            Err(e) => Err(e),
        }
    }

    /// Set the global dirty state.
    ///
    /// This does not change the dirty state of any row.
    pub fn set_dirty<S>(
        &self,
        dirty: Dirty,
        engine: &mut S,
        change: impl FnOnce(&S, usize, RenderStateOption, u32) -> (S, i32),
    ) -> (res: Result<()>)
        requires
            change.requires(
                (&*old(engine), self.addr(), RenderStateOption::Dirty, dirty.spec_code()),
            ),
        ensures
            changed(
                change,
                self.addr(),
                RenderStateOption::Dirty,
                dirty.spec_code(),
                *old(engine),
                *final(engine),
                res,
            ),
    {
        put_in(self.as_raw(), RenderStateOption::Dirty, dirty.code(), engine, change)
    }
}

/// The answers to the questions for the cursor's position: the position and the wide tail are only
/// asked for as long as everything before succeeded and the cursor is in the viewport.
pub open spec fn viewport_answers<F: Fn(usize, RenderStateData) -> Reply<bool>, C: Fn(usize, RenderStateData) -> Reply<u16>>(
    flag: F,
    coord: C,
    state: usize,
    has: Result<bool>,
    x: Result<u16>,
    y: Result<u16>,
    tail: Result<bool>,
) -> bool {
    &&& exists|r: Reply<bool>| #[trigger]
        flag.ensures((state, RenderStateData::CursorViewportHasValue), r) && has == r.outcome()
    &&& has == Ok::<bool, Error>(true) ==> {
        &&& exists|r: Reply<u16>| #[trigger]
            coord.ensures((state, RenderStateData::CursorViewportX), r) && x == r.outcome()
        &&& x is Ok ==> {
            &&& exists|r: Reply<u16>| #[trigger]
                coord.ensures((state, RenderStateData::CursorViewportY), r) && y == r.outcome()
            &&& y is Ok ==> exists|r: Reply<bool>| #[trigger]
                flag.ensures((state, RenderStateData::CursorViewportWideTail), r) && tail == r.outcome()
        }
    }
}

/// What the answers to the questions for the cursor's position come to: the first error, nothing
/// if the cursor is not in the viewport, and else where it is.
pub open spec fn viewport_of(
    has: Result<bool>,
    x: Result<u16>,
    y: Result<u16>,
    tail: Result<bool>,
) -> Result<Option<CursorViewport>> {
    match (has, x, y, tail) {
        (Err(e), _, _, _) => Err(e),
        (Ok(false), _, _, _) => Ok(None),
        (_, Err(e), _, _) => Err(e),
        (_, _, Err(e), _) => Err(e),
        (_, _, _, Err(e)) => Err(e),
        (_, Ok(x), Ok(y), Ok(at_wide_tail)) => Ok(Some(CursorViewport { x, y, at_wide_tail })),
    }
}

//--------------------------
// Rows
//--------------------------

/// Opaque handle to a render-state row iterator.
///
/// The row iterator must be [updated](RowIterator::update) from a snapshot of the render state in
/// order to function, as most data is only accessible per [iteration](RowIteration).
#[derive(Debug)]
pub struct RowIterator {
    inner: Object,
}

impl RowIterator {
    /// The address of the row iterator.
    pub closed spec fn addr(&self) -> usize {
        self.inner.addr()
    }

    /// The address that a constructor's result holds, or its error.
    pub open spec fn addr_of(res: Result<Self>) -> Result<usize> {
        match res {
            Ok(value) => Ok(value.addr()),
            Err(e) => Err(e),
        }
    }

    /// Create a new row iterator.
    pub fn new(create: impl FnOnce(usize) -> NewReply) -> (res: Result<Self>)
        requires
            create.requires((DEFAULT_ALLOCATOR,)),
        ensures
            created(create, DEFAULT_ALLOCATOR, Self::addr_of(res)),
    {
        Self::new_inner(DEFAULT_ALLOCATOR, create)
    }

    /// Create a new row iterator with a custom allocator.
    pub fn new_with_alloc(
        alloc: &Allocator,
        create: impl FnOnce(usize) -> NewReply,
    ) -> (res: Result<Self>)
        requires
            create.requires((alloc.addr(),)),
        ensures
            created(create, alloc.addr(), Self::addr_of(res)),
    {
        Self::new_inner(alloc.to_raw(), create)
    }

    fn new_inner<F: FnOnce(usize) -> NewReply>(alloc: usize, create: F) -> (res: Result<Self>)
        requires
            create.requires((alloc,)),
        ensures
            created(create, alloc, Self::addr_of(res)),
    {
        match new_object(alloc, create) {
            Ok(inner) => Ok(RowIterator { inner }),
            Err(e) => Err(e),
        }
    }

    /// The address of the row iterator.
    pub fn as_raw(&self) -> (res: usize)
        ensures
            res == self.addr(),
    {
        self.inner.as_raw()
    }

    /// Start over at the rows of the snapshot.
    pub fn update<'s>(
        &'s mut self,
        snapshot: &'s Snapshot<'_>,
        populate: impl FnOnce(usize, usize) -> i32,
    ) -> (res: Result<RowIteration<'s>>)
        requires
            populate.requires((snapshot.addr(), old(self).addr())),
        ensures
            *final(self) == *old(self),
            exists|code: i32| #[trigger]
                populate.ensures((snapshot.addr(), old(self).addr()), code) && match res {
                    Ok(rows) => outcome(code) is Ok && rows.addr() == old(self).addr(),
                    Err(e) => outcome(code) == Err::<(), Error>(e),
                },
    {
        match from_result(populate(snapshot.as_raw(), self.as_raw())) {
            Ok(_) => Ok(RowIteration { iter: &*self }),
            Err(e) => Err(e),
        }
    }
}

/// What can be asked of the current row of an iteration.
#[derive(Clone, Copy, Debug, PartialEq, Eq, Structural)]
pub enum IterationRowData {
    /// Whether the row is dirty.
    Dirty,
    /// The row itself.
    Raw,
}

/// What can be set on the current row of an iteration.
#[derive(Clone, Copy, Debug, PartialEq, Eq, Structural)]
pub enum IterationRowOption {
    /// Whether the row is dirty.
    Dirty,
}

/// An active iteration over the rows in the render state.
///
/// Row iterations are created by [updating](RowIterator::update) row iterators with a snapshot of
/// the render state. They do not outlive the snapshot.
#[derive(Debug)]
pub struct RowIteration<'s> {
    iter: &'s RowIterator,
}

impl<'s> RowIteration<'s> {
    /// The address of the row iterator.
    pub closed spec fn addr(&self) -> usize {
        self.iter.addr()
    }

    /// The address of the row iterator.
    pub fn as_raw(&self) -> (res: usize)
        ensures
            res == self.addr(),
    {
        self.iter.as_raw()
    }

    /// Advance to the next row, if there is one.
    pub fn next(&mut self, advance: impl FnOnce(usize) -> bool) -> (res: Option<&Self>)
        requires
            advance.requires((old(self).addr(),)),
        ensures
            *final(self) == *old(self),
            advance.ensures((old(self).addr(),), res is Some),
            res matches Some(row) ==> *row == *old(self),
    {
        if advance(self.as_raw()) {
            Some(&*self)
        } else {
            None
        }
    }

    /// Whether the current row is dirty.
    pub fn dirty(
        &self,
        query: impl FnOnce(usize, IterationRowData) -> Reply<bool>,
    ) -> (res: Result<bool>)
        requires
            query.requires((self.addr(), IterationRowData::Dirty)),
        ensures
            answered(query, self.addr(), IterationRowData::Dirty, res),
    {
        get(self.as_raw(), IterationRowData::Dirty, query)
    }

    /// The current row itself.
    pub fn raw_row(
        &self,
        query: impl FnOnce(usize, IterationRowData) -> Reply<u64>,
    ) -> (res: Result<Row>)
        requires
            query.requires((self.addr(), IterationRowData::Raw)),
        ensures
            exists|reply: Reply<u64>| #[trigger]
                query.ensures((self.addr(), IterationRowData::Raw), reply) &&
                    res == match reply.outcome() {
                    Ok(value) => Ok(Row(value)),
                    Err(e) => Err(e),
                },
    {
        match get(self.as_raw(), IterationRowData::Raw, query) {
            Ok(value) => Ok(Row(value)),
            Err(e) => Err(e),
        }
    }

    /// Set whether the current row is dirty.
    ///
    /// This does not change the global dirty state.
    pub fn set_dirty<S>(
        &self,
        dirty: bool,
        engine: &mut S,
        change: impl FnOnce(&S, usize, IterationRowOption, bool) -> (S, i32),
    ) -> (res: Result<()>)
        requires
            change.requires((&*old(engine), self.addr(), IterationRowOption::Dirty, dirty)),
        ensures
            changed(
                change,
                self.addr(),
                IterationRowOption::Dirty,
                dirty,
                *old(engine),
                *final(engine),
                res,
            ),
    {
        put_in(self.as_raw(), IterationRowOption::Dirty, dirty, engine, change)
    }
}

//--------------------------
// Cells
//--------------------------

/// Opaque handle to a render state cell iterator.
///
/// The cell iterator must be [updated](CellIterator::update) from a [row](RowIteration) in order to
/// function, as most data is only accessible per [iteration](CellIteration).
#[derive(Debug)]
pub struct CellIterator {
    inner: Object,
}

impl CellIterator {
    /// The address of the cell iterator.
    pub closed spec fn addr(&self) -> usize {
        self.inner.addr()
    }

    /// The address that a constructor's result holds, or its error.
    pub open spec fn addr_of(res: Result<Self>) -> Result<usize> {
        match res {
            Ok(value) => Ok(value.addr()),
            Err(e) => Err(e),
        }
    }

    /// Create a new cell iterator.
    pub fn new(create: impl FnOnce(usize) -> NewReply) -> (res: Result<Self>)
        requires
            create.requires((DEFAULT_ALLOCATOR,)),
        ensures
            created(create, DEFAULT_ALLOCATOR, Self::addr_of(res)),
    {
        Self::new_inner(DEFAULT_ALLOCATOR, create)
    }

    /// Create a new cell iterator with a custom allocator.
    pub fn new_with_alloc(
        alloc: &Allocator,
        create: impl FnOnce(usize) -> NewReply,
    ) -> (res: Result<Self>)
        requires
            create.requires((alloc.addr(),)),
        ensures
            created(create, alloc.addr(), Self::addr_of(res)),
    {
        Self::new_inner(alloc.to_raw(), create)
    }

    fn new_inner<F: FnOnce(usize) -> NewReply>(alloc: usize, create: F) -> (res: Result<Self>)
        requires
            create.requires((alloc,)),
        ensures
            created(create, alloc, Self::addr_of(res)),
    {
        match new_object(alloc, create) {
            Ok(inner) => Ok(CellIterator { inner }),
            Err(e) => Err(e),
        }
    }

    /// The address of the cell iterator.
    pub fn as_raw(&self) -> (res: usize)
        ensures
            res == self.addr(),
    {
        self.inner.as_raw()
    }

    /// Start over at the cells of the row.
    pub fn update<'s>(
        &'s mut self,
        row: &'s RowIteration<'_>,
        populate: impl FnOnce(usize, usize) -> i32,
    ) -> (res: Result<CellIteration<'s>>)
        requires
            populate.requires((row.addr(), old(self).addr())),
        ensures
            *final(self) == *old(self),
            exists|code: i32| #[trigger]
                populate.ensures((row.addr(), old(self).addr()), code) && match res {
                    Ok(cells) => outcome(code) is Ok && cells.addr() == old(self).addr(),
                    Err(e) => outcome(code) == Err::<(), Error>(e),
                },
    {
        match from_result(populate(row.as_raw(), self.as_raw())) {
            Ok(_) => Ok(CellIteration { iter: &*self }),
            Err(e) => Err(e),
        }
    }
}

/// What can be asked of the current cell of an iteration.
#[derive(Clone, Copy, Debug, PartialEq, Eq, Structural)]
pub enum IterationCellData {
    /// The cell itself.
    Raw,
    /// The style of the cell.
    Style,
    /// The number of codepoints in the cell.
    GraphemesLen,
}

/// An active iteration over the cells on a given row within the render state.
///
/// Cell iterations are created by [updating](CellIterator::update) cell iterators at a given
/// [row](RowIteration). They do not outlive it.
#[derive(Debug)]
pub struct CellIteration<'s> {
    iter: &'s CellIterator,
}

impl<'s> CellIteration<'s> {
    /// The address of the cell iterator.
    pub closed spec fn addr(&self) -> usize {
        self.iter.addr()
    }

    /// The address of the cell iterator.
    pub fn as_raw(&self) -> (res: usize)
        ensures
            res == self.addr(),
    {
        self.iter.as_raw()
    }

    /// Advance to the next cell, if there is one.
    pub fn next(&mut self, advance: impl FnOnce(usize) -> bool) -> (res: Option<&Self>)
        requires
            advance.requires((old(self).addr(),)),
        ensures
            *final(self) == *old(self),
            advance.ensures((old(self).addr(),), res is Some),
            res matches Some(cell) ==> *cell == *old(self),
    {
        if advance(self.as_raw()) {
            Some(&*self)
        } else {
            None
        }
    }

    /// Go to the cell in column `x`.
    pub fn select(&mut self, x: u16, select: impl FnOnce(usize, u16) -> i32) -> (res: Result<()>)
        requires
            select.requires((old(self).addr(), x)),
        ensures
            *final(self) == *old(self),
            exists|code: i32| #[trigger]
                select.ensures((old(self).addr(), x), code) && res == outcome(code),
    {
        from_result(select(self.as_raw(), x))
    }

    /// The current cell itself.
    pub fn raw_cell(
        &self,
        query: impl FnOnce(usize, IterationCellData) -> Reply<u64>,
    ) -> (res: Result<Cell>)
        requires
            query.requires((self.addr(), IterationCellData::Raw)),
        ensures
            exists|reply: Reply<u64>| #[trigger]
                query.ensures((self.addr(), IterationCellData::Raw), reply) &&
                    res == match reply.outcome() {
                    Ok(value) => Ok(Cell(value)),
                    Err(e) => Err(e),
                },
    {
        match get(self.as_raw(), IterationCellData::Raw, query) {
            Ok(value) => Ok(Cell(value)),
            Err(e) => Err(e),
        }
    }

    /// The style of the current cell.
    pub fn style(
        &self,
        query: impl FnOnce(usize, IterationCellData) -> Reply<RawStyle>,
    ) -> (res: Result<Style>)
        requires
            query.requires((self.addr(), IterationCellData::Style)),
        ensures
            exists|reply: Reply<RawStyle>| #[trigger]
                query.ensures((self.addr(), IterationCellData::Style), reply) &&
                    res == match reply.outcome() {
                    Ok(value) => Style::decoded(value),
                    Err(e) => Err(e),
                },
    {
        match get(self.as_raw(), IterationCellData::Style, query) {
            Ok(value) => Style::from_raw(value),
            Err(e) => Err(e),
        }
    }

    /// How many codepoints the current cell has.
    pub fn graphemes_len(
        &self,
        query: impl FnOnce(usize, IterationCellData) -> Reply<u32>,
    ) -> (res: Result<u32>)
        requires
            query.requires((self.addr(), IterationCellData::GraphemesLen)),
        ensures
            answered(query, self.addr(), IterationCellData::GraphemesLen, res),
    {
        get(self.as_raw(), IterationCellData::GraphemesLen, query)
    }

    /// The codepoints of the current cell.
    ///
    /// `len` says how many there are, and `read` then reads as many. The engine has to answer with
    /// as many Unicode scalar values.
    pub fn graphemes(
        &self,
        len: impl FnOnce(usize, IterationCellData) -> Reply<u32>,
        read: impl FnOnce(usize, u32) -> Reply<Vec<u32>>,
    ) -> (res: Result<Vec<char>>)
        requires
            len.requires((self.addr(), IterationCellData::GraphemesLen)),
            forall|n: u32| #[trigger] read.requires((self.addr(), n)),
            forall|n: u32, reply: Reply<Vec<u32>>| #[trigger]
                read.ensures((self.addr(), n), reply) && reply.outcome() is Ok ==> {
                    &&& reply.value@.len() == n
                    &&& forall|i: int| 0 <= i < n ==> vstd::utf8::is_scalar(#[trigger] reply.value@[i])
                },
        ensures
            exists|n: Result<u32>| #[trigger]
                answered(len, self.addr(), IterationCellData::GraphemesLen, n) && match n {
                    Ok(n) => exists|reply: Reply<Vec<u32>>| #[trigger]
                        read.ensures((self.addr(), n), reply) && match (reply.outcome(), res) {
                            (Ok(codepoints), Ok(chars)) => {
                                &&& chars@.len() == codepoints@.len() == n
                                &&& forall|i: int|
                                    0 <= i < n ==> #[trigger] chars@[i] as u32 == codepoints@[i]
                            },
                            (Err(e), res) => res == Err::<Vec<char>, Error>(e),
                            _ => false,
                        },
                    Err(e) => res == Err::<Vec<char>, Error>(e),
                },
    {
        let n: u32 = match get(self.as_raw(), IterationCellData::GraphemesLen, len) {
            Ok(n) => n,
            Err(e) => {
                return Err(e);
            },
        };
        let raw: usize = self.as_raw();
        assert(raw == self.addr());
        let reply = read(raw, n);
        match reply.into_result() {
            Ok(codepoints) => Ok(chars_of(&codepoints)),
            Err(e) => Err(e),
        }
    }
}

/// The characters with the given codepoints.
fn chars_of(codepoints: &Vec<u32>) -> (res: Vec<char>)
    requires
        forall|i: int|
            0 <= i < codepoints@.len() ==> vstd::utf8::is_scalar(#[trigger] codepoints@[i]),
    ensures
        res@.len() == codepoints@.len(),
        forall|i: int| 0 <= i < res@.len() ==> #[trigger] res@[i] as u32 == codepoints@[i],
{
    let mut chars: Vec<char> = Vec::with_capacity(codepoints.len());
    let mut i: usize = 0;
    while i < codepoints.len()
        invariant
            i <= codepoints@.len(),
            chars@.len() == i,
            forall|j: int|
                0 <= j < codepoints@.len() ==> vstd::utf8::is_scalar(#[trigger] codepoints@[j]),
            forall|j: int| 0 <= j < i ==> #[trigger] chars@[j] as u32 == codepoints@[j],
        decreases codepoints@.len() - i,
    {
        match char_from_u32(codepoints[i]) {
            Some(c) => chars.push(c),
            None => {
                assert(false);
            },
        }
        i += 1;
    }
    chars
}

//---------------------------
// Auxiliary types
//---------------------------

/// Where the cursor is in the viewport.
#[derive(Clone, Copy, Debug, PartialEq, Eq, Structural)]
pub struct CursorViewport {
    /// The column.
    pub x: u16,
    /// The row.
    pub y: u16,
    /// Whether the cursor is on the tail of a wide character.
    pub at_wide_tail: bool,
}

/// The colors of a render state.
#[derive(Clone, Copy, Debug, PartialEq, Eq)]
pub struct Colors {
    /// The default/current background color for the render state.
    pub background: RgbColor,
    /// The default/current foreground color for the render state.
    pub foreground: RgbColor,
    /// The cursor color which may be explicitly set by terminal state.
    pub cursor: Option<RgbColor>,
    /// The active 256-color palette for this render state.
    pub palette: [RgbColor; 256],
}

/// The colors of a render state as the engine reports them.
#[derive(Clone, Copy, Debug)]
pub struct RawColors {
    /// The background color.
    pub background: RgbColor,
    /// The foreground color.
    pub foreground: RgbColor,
    /// The cursor color; meaningless unless there is one.
    pub cursor: RgbColor,
    /// Whether there is a cursor color.
    pub cursor_has_value: bool,
    /// The palette.
    pub palette: [RgbColor; 256],
}

impl RawColors {
    /// The colors that are reported.
    pub open spec fn colors(self) -> Colors {
        Colors {
            background: self.background,
            foreground: self.foreground,
            cursor: if self.cursor_has_value {
                Some(self.cursor)
            } else {
                None
            },
            palette: self.palette,
        }
    }
}

/// The colors are the reported ones, each in its own place, and the cursor has one exactly if the
/// engine says so.
pub proof fn colors_are_as_reported(raw: RawColors, color: RgbColor)
    ensures
        raw.colors().background == raw.background,
        raw.colors().foreground == raw.foreground,
        raw.colors().palette == raw.palette,
        raw.colors().cursor is Some <==> raw.cursor_has_value,
        raw.colors().cursor == Some(color) ==> color == raw.cursor,
{
}

/// Where the cursor is: the reported column and row, and whether it is on the tail of a wide
/// character. Without a cursor in the viewport there is no position, whatever else was answered, and
/// any error on the way is the result.
pub proof fn the_cursor_is_where_it_was_reported(
    has: Result<bool>,
    x: Result<u16>,
    y: Result<u16>,
    tail: Result<bool>,
)
    ensures
        ({
            let res = viewport_of(has, x, y, tail);
            &&& has == Ok::<bool, Error>(false) ==> res == Ok::<Option<CursorViewport>, Error>(
                None,
            )
            &&& has matches Err(e) ==> res == Err::<Option<CursorViewport>, Error>(e)
            &&& has == Ok::<bool, Error>(true) ==> {
                &&& x matches Err(e) ==> res == Err::<Option<CursorViewport>, Error>(e)
                &&& x is Ok ==> (y matches Err(e) ==> res == Err::<
                    Option<CursorViewport>,
                    Error,
                >(e))
                &&& x is Ok && y is Ok ==> (tail matches Err(e) ==> res == Err::<
                    Option<CursorViewport>,
                    Error,
                >(e))
            }
            &&& res matches Ok(Some(at)) ==> {
                &&& x == Ok::<u16, Error>(at.x)
                &&& y == Ok::<u16, Error>(at.y)
                &&& tail == Ok::<bool, Error>(at.at_wide_tail)
            }
            &&& has == Ok::<bool, Error>(true) && x is Ok && y is Ok && tail is Ok ==> {
                &&& res is Ok
                &&& res->Ok_0 is Some
            }
        }),
{
}

/// Dirty state of a render state after update.
#[derive(Clone, Copy, Debug, PartialEq, Eq, Structural)]
pub enum Dirty {
    /// Not dirty at all; rendering can be skipped.
    Clean,
    /// Some rows changed; renderer can redraw incrementally.
    Partial,
    /// Global state changed; renderer should redraw everything.
    Full,
}

impl Dirty {
    /// The number that stands for this value in the engine's interface.
    pub open spec fn spec_code(self) -> u32 {
        match self {
            Dirty::Clean => 0,
            Dirty::Partial => 1,
            Dirty::Full => 2,
        }
    }

    /// The value that `code` stands for; a number that stands for none is an invalid value.
    pub open spec fn decoded(code: u32) -> Result<Self> {
        match code {
            0 => Ok(Dirty::Clean),
            1 => Ok(Dirty::Partial),
            2 => Ok(Dirty::Full),
            _ => Err(Error::InvalidValue),
        }
    }

    /// The number that stands for this value in the engine's interface.
    pub fn code(self) -> (res: u32)
        ensures
            res == self.spec_code(),
    {
        match self {
            Dirty::Clean => 0,
            Dirty::Partial => 1,
            Dirty::Full => 2,
        }
    }

    /// The value that `code` stands for.
    pub fn from_code(code: u32) -> (res: Result<Self>)
        ensures
            res == Self::decoded(code),
    {
        match code {
            0 => Ok(Dirty::Clean),
            1 => Ok(Dirty::Partial),
            2 => Ok(Dirty::Full),
            _ => Err(Error::InvalidValue),
        }
    }

    /// Every value has a number of its own, and a number decodes to the value that it stands for
    /// and to nothing else.
    pub proof fn codes_round_trip(self, code: u32)
        ensures
            Self::decoded(self.spec_code()) == Ok::<Self, Error>(self),
            Self::decoded(code) matches Ok(value) ==> value.spec_code() == code,
    {
    }

    /// The engine counts the values from zero on: `Clean`, `Partial`, `Full`. No other number stands
    /// for one.
    pub proof fn values_are_counted(self, code: u32)
        ensures
            self is Clean <==> self.spec_code() == 0,
            self is Partial <==> self.spec_code() == 1,
            self is Full <==> self.spec_code() == 2,
            Self::decoded(code) == Ok::<Self, Error>(self) <==> code == self.spec_code(),
            Self::decoded(code) is Ok <==> code < 3,
            Self::decoded(code) is Err ==> Self::decoded(code) == Err::<Self, Error>(
                Error::InvalidValue,
            ),
    {
    }
}

/// The shape of the cursor.
#[derive(Clone, Copy, Debug, PartialEq, Eq, Structural)]
pub enum CursorVisualStyle {
    /// A bar before the cell.
    Bar,
    /// A filled block.
    Block,
    /// A line under the cell.
    Underline,
    /// The outline of a block.
    BlockHollow,
}

impl CursorVisualStyle {
    /// The number that stands for this value in the engine's interface.
    pub open spec fn spec_code(self) -> u32 {
        match self {
            CursorVisualStyle::Bar => 0,
            CursorVisualStyle::Block => 1,
            CursorVisualStyle::Underline => 2,
            CursorVisualStyle::BlockHollow => 3,
        }
    }

    /// The value that `code` stands for; a number that stands for none is an invalid value.
    pub open spec fn decoded(code: u32) -> Result<Self> {
        match code {
            0 => Ok(CursorVisualStyle::Bar),
            1 => Ok(CursorVisualStyle::Block),
            2 => Ok(CursorVisualStyle::Underline),
            3 => Ok(CursorVisualStyle::BlockHollow),
            _ => Err(Error::InvalidValue),
        }
    }

    /// The number that stands for this value in the engine's interface.
    pub fn code(self) -> (res: u32)
        ensures
            res == self.spec_code(),
    {
        match self {
            CursorVisualStyle::Bar => 0,
            CursorVisualStyle::Block => 1,
            CursorVisualStyle::Underline => 2,
            CursorVisualStyle::BlockHollow => 3,
        }
    }

    /// The value that `code` stands for.
    pub fn from_code(code: u32) -> (res: Result<Self>)
        ensures
            res == Self::decoded(code),
    {
        match code {
            0 => Ok(CursorVisualStyle::Bar),
            1 => Ok(CursorVisualStyle::Block),
            2 => Ok(CursorVisualStyle::Underline),
            3 => Ok(CursorVisualStyle::BlockHollow),
            _ => Err(Error::InvalidValue),
        }
    }

    /// Every value has a number of its own, and a number decodes to the value that it stands for
    /// and to nothing else.
    pub proof fn codes_round_trip(self, code: u32)
        ensures
            Self::decoded(self.spec_code()) == Ok::<Self, Error>(self),
            Self::decoded(code) matches Ok(value) ==> value.spec_code() == code,
    {
    }

    /// The engine counts the values from zero on: `Bar`, `Block`, `Underline`, `BlockHollow`. No
    /// other number stands for one.
    pub proof fn values_are_counted(self, code: u32)
        ensures
            self is Bar <==> self.spec_code() == 0,
            self is Block <==> self.spec_code() == 1,
            self is Underline <==> self.spec_code() == 2,
            self is BlockHollow <==> self.spec_code() == 3,
            Self::decoded(code) == Ok::<Self, Error>(self) <==> code == self.spec_code(),
            Self::decoded(code) is Ok <==> code < 4,
            Self::decoded(code) is Err ==> Self::decoded(code) == Err::<Self, Error>(
                Error::InvalidValue,
            ),
    {
    }
}

//--------------------------
// Dirty flags
//--------------------------

/// `res` is what some answer to the question for the global dirty state comes to.
pub open spec fn dirty_told<F: FnOnce(usize, RenderStateData) -> Reply<u32>>(
    query: F,
    state: usize,
    res: Result<Dirty>,
) -> bool {
    exists|reply: Reply<u32>| #[trigger]
        query.ensures((state, RenderStateData::Dirty), reply) && res == match reply.outcome() {
            Ok(value) => Dirty::decoded(value),
            Err(e) => Err(e),
        }
}

/// What the engine keeps of the dirty flags of a render state.
pub ghost struct DirtyFlags {
    /// The number of the global dirty state.
    pub global: u32,
    /// Whether each row is dirty.
    pub rows: Seq<bool>,
}

/// The dirty flags that the engine keeps, and where its row iterators are.
#[verifier::reject_recursive_types(S)]
pub ghost struct DirtyView<S> {
    /// The flags of a render state.
    pub flags: spec_fn(S, usize) -> DirtyFlags,
    /// The render state that a row iterator goes over, and the row that it is at.
    pub place: spec_fn(S, usize) -> (usize, int),
}

impl<S> DirtyView<S> {
    /// `change` sets the global flag of a render state, and leaves its rows and every iterator
    /// alone.
    pub open spec fn sets_global<F: FnOnce(&S, usize, RenderStateOption, u32) -> (S, i32)>(
        self,
        change: F,
    ) -> bool {
        forall|before: &S, state: usize, value: u32, out: (S, i32)| #[trigger]
            change.ensures((before, state, RenderStateOption::Dirty, value), out) && outcome(
                out.1,
            ) is Ok ==> {
                &&& (self.flags)(out.0, state) == (DirtyFlags {
                    global: value,
                    ..(self.flags)(*before, state)
                })
                &&& forall|iter: usize| #[trigger]
                    (self.place)(out.0, iter) == (self.place)(*before, iter)
            }
    }

    /// `change` sets the flag of the row that an iterator is at, and leaves the other rows, the
    /// global flag and every iterator alone.
    pub open spec fn sets_row<F: FnOnce(&S, usize, IterationRowOption, bool) -> (S, i32)>(
        self,
        change: F,
    ) -> bool {
        forall|before: &S, iter: usize, value: bool, out: (S, i32)| #[trigger]
            change.ensures((before, iter, IterationRowOption::Dirty, value), out) && outcome(
                out.1,
            ) is Ok ==> {
                let (state, row) = (self.place)(*before, iter);
                let then = (self.flags)(*before, state);
                &&& (self.flags)(out.0, state) == (DirtyFlags {
                    rows: then.rows.update(row, value),
                    ..then
                })
                &&& forall|iter: usize| #[trigger]
                    (self.place)(out.0, iter) == (self.place)(*before, iter)
            }
    }

    /// `ask` answers with the global flags of an engine.
    pub open spec fn tells_global<F: FnOnce(usize, RenderStateData) -> Reply<u32>>(
        self,
        ask: spec_fn(S) -> F,
    ) -> bool {
        forall|engine: S, state: usize, reply: Reply<u32>| #[trigger]
            ask(engine).ensures((state, RenderStateData::Dirty), reply) ==> reply.outcome() == Ok::<
                u32,
                Error,
            >((self.flags)(engine, state).global)
    }

    /// `ask` answers with the flags of the rows that the iterators of an engine are at.
    pub open spec fn tells_rows<F: FnOnce(usize, IterationRowData) -> Reply<bool>>(
        self,
        ask: spec_fn(S) -> F,
    ) -> bool {
        forall|engine: S, iter: usize, reply: Reply<bool>| #[trigger]
            ask(engine).ensures((iter, IterationRowData::Dirty), reply) ==> {
                let (state, row) = (self.place)(engine, iter);
                reply.outcome() == Ok::<bool, Error>((self.flags)(engine, state).rows[row])
            }
    }
}

/// Setting the global dirty state is read back, and leaves the flag of every row as it was, also
/// when it is set to clean.
pub proof fn the_global_flag_leaves_the_rows_alone<
    S,
    C: FnOnce(&S, usize, RenderStateOption, u32) -> (S, i32),
    Q: FnOnce(usize, RenderStateData) -> Reply<u32>,
    R: FnOnce(usize, IterationRowData) -> Reply<bool>,
>(
    view: DirtyView<S>,
    change: C,
    ask_global: spec_fn(S) -> Q,
    ask_row: spec_fn(S) -> R,
    state: usize,
    dirty: Dirty,
    before: S,
    after: S,
    global: Result<Dirty>,
    iter: usize,
    row_before: Result<bool>,
    row_after: Result<bool>,
)
    requires
        view.sets_global(change),
        view.tells_global(ask_global),
        view.tells_rows(ask_row),
        changed(
            change,
            state,
            RenderStateOption::Dirty,
            dirty.spec_code(),
            before,
            after,
            Ok(()),
        ),
        dirty_told(ask_global(after), state, global),
        (view.place)(before, iter).0 == state,
        answered(ask_row(before), iter, IterationRowData::Dirty, row_before),
        answered(ask_row(after), iter, IterationRowData::Dirty, row_after),
    ensures
        global == Ok::<Dirty, Error>(dirty),
        row_after == row_before,
        (view.flags)(after, state).rows == (view.flags)(before, state).rows,
{
    dirty.codes_round_trip(0);
}

/// Setting the flag of a row is read back, and leaves the global dirty state and the flags of the
/// other rows as they were.
pub proof fn a_row_flag_leaves_the_global_one_alone<
    S,
    C: FnOnce(&S, usize, IterationRowOption, bool) -> (S, i32),
    Q: FnOnce(usize, RenderStateData) -> Reply<u32>,
    R: FnOnce(usize, IterationRowData) -> Reply<bool>,
>(
    view: DirtyView<S>,
    change: C,
    ask_global: spec_fn(S) -> Q,
    ask_row: spec_fn(S) -> R,
    state: usize,
    iter: usize,
    dirty: bool,
    before: S,
    after: S,
    row: Result<bool>,
    global_before: Result<Dirty>,
    global_after: Result<Dirty>,
    other: usize,
    other_before: Result<bool>,
    other_after: Result<bool>,
)
    requires
        view.sets_row(change),
        view.tells_global(ask_global),
        view.tells_rows(ask_row),
        (view.place)(before, iter).0 == state,
        0 <= (view.place)(before, iter).1 < (view.flags)(before, state).rows.len(),
        (view.place)(before, other).0 == state,
        0 <= (view.place)(before, other).1 < (view.flags)(before, state).rows.len(),
        (view.place)(before, other).1 != (view.place)(before, iter).1,
        changed(change, iter, IterationRowOption::Dirty, dirty, before, after, Ok(())),
        answered(ask_row(after), iter, IterationRowData::Dirty, row),
        dirty_told(ask_global(before), state, global_before),
        dirty_told(ask_global(after), state, global_after),
        answered(ask_row(before), other, IterationRowData::Dirty, other_before),
        answered(ask_row(after), other, IterationRowData::Dirty, other_after),
    ensures
        row == Ok::<bool, Error>(dirty),
        global_after == global_before,
        other_after == other_before,
{
    assert((view.place)(after, iter) == (view.place)(before, iter));
    assert((view.place)(after, other) == (view.place)(before, other));
}

} // verus!
