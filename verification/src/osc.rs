//! Parsing and handling OSC (Operating System Command) escape sequences.
use crate::error::Result;
use crate::memory::{created, new_object, Allocator, NewReply, Object, DEFAULT_ALLOCATOR};
use vstd::prelude::*;

verus! {

/// OSC (Operating System Command) sequence parser and command handling.
///
/// The parser operates in a streaming fashion, processing input byte-by-byte to handle OSC sequences
/// that may arrive in fragments across multiple reads.
#[derive(Debug)]
pub struct Parser {
    inner: Object,
}

impl Parser {
    /// The address of the OSC parser.
    pub closed spec fn addr(&self) -> usize {
        self.inner.addr()
    }

    /// The address that a constructor's result holds, or its error.
    pub open spec fn addr_of(res: Result<Self>) -> Result<usize> {
        match res {
            Ok(value) => Ok(value.addr()),
            Err(e) => Err(e),
        }
    }

    /// Create a new OSC parser.
    pub fn new(create: impl FnOnce(usize) -> NewReply) -> (res: Result<Self>)
        requires
            create.requires((DEFAULT_ALLOCATOR,)),
        ensures
            created(create, DEFAULT_ALLOCATOR, Self::addr_of(res)),
    {
        Self::new_inner(DEFAULT_ALLOCATOR, create)
    }

    /// Create a new OSC parser with a custom allocator.
    pub fn new_with_alloc(
        alloc: &Allocator,
        create: impl FnOnce(usize) -> NewReply,
    ) -> (res: Result<Self>)
        requires
            create.requires((alloc.addr(),)),
        ensures
            created(create, alloc.addr(), Self::addr_of(res)),
    {
        Self::new_inner(alloc.to_raw(), create)
    }

    fn new_inner<F: FnOnce(usize) -> NewReply>(alloc: usize, create: F) -> (res: Result<Self>)
        requires
            create.requires((alloc,)),
        ensures
            created(create, alloc, Self::addr_of(res)),
    {
        match new_object(alloc, create) {
            Ok(inner) => Ok(Parser { inner }),
            Err(e) => Err(e),
        }
    }

    /// The address of the OSC parser.
    pub fn as_raw(&self) -> (res: usize)
        ensures
            res == self.addr(),
    {
        self.inner.as_raw()
    }

    /// Forget what was parsed so far.
    pub fn reset(&mut self, reset: impl FnOnce(usize))
        requires
            reset.requires((old(self).addr(),)),
        ensures
            *final(self) == *old(self),
            reset.ensures((old(self).addr(),), ()),
    {
        reset(self.as_raw())
    }

    /// Parse the next byte of the sequence.
    pub fn next_byte(&mut self, byte: u8, next: impl FnOnce(usize, u8))
        requires
            next.requires((old(self).addr(), byte)),
        ensures
            *final(self) == *old(self),
            next.ensures((old(self).addr(), byte), ()),
    {
        next(self.as_raw(), byte)
    }

    /// End the sequence with the given terminator and get the command.
    pub fn end<'p>(
        &'p mut self,
        terminator: u8,
        end: impl FnOnce(usize, u8) -> usize,
    ) -> (res: Command<'p>)
        requires
            end.requires((old(self).addr(), terminator)),
        ensures
            final(self).addr() == old(self).addr(),
            end.ensures((old(self).addr(), terminator), res.addr()),
    {
        let raw: usize = end(self.as_raw(), terminator);
        Command { raw, parser: &*self }
    }
}

/// A command that was parsed.
///
/// It lives in the parser, and does not outlive the next sequence.
#[derive(Debug)]
pub struct Command<'p> {
    raw: usize,
    #[allow(dead_code)]
    parser: &'p Parser,
}

impl<'p> Command<'p> {
    /// The address of the command.
    pub closed spec fn addr(&self) -> usize {
        self.raw
    }

    /// The number of the command's type.
    pub fn command_type(&self, query: impl FnOnce(usize) -> u32) -> (res: u32)
        requires
            query.requires((self.addr(),)),
        ensures
            query.ensures((self.addr(),), res),
    {
        query(self.raw)
    }
}

} // verus!
