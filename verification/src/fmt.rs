//! Format terminal content as plain text, VT sequences, or HTML.
//!
//! A formatter captures a reference to a terminal and formatting options. It can be used repeatedly
//! to produce output that reflects the current terminal state at the time of each format call.
use crate::abi;
use crate::buffer::{overwrite, overwritten, BufReply};
use crate::error::{outcome, from_result, Error, Result};
use crate::memory::{Allocator, NewReply, Object, DEFAULT_ALLOCATOR};
use crate::terminal::Terminal;
use vstd::prelude::*;

verus! {

/// Formatter that formats terminal content.
#[derive(Debug)]
pub struct Formatter<'t, H = ()> {
    inner: Object,
    #[allow(dead_code)]
    terminal: &'t Terminal<H>,
}

/// Options for creating a terminal formatter.
#[derive(Clone, Copy, Debug, PartialEq, Eq, Structural)]
pub struct FormatterOptions {
    /// Output format to emit.
    pub format: Format,
    /// Whether to trim trailing whitespace on non-blank lines.
    pub trim: bool,
    /// Whether to unwrap soft-wrapped lines.
    pub unwrap: bool,
}

/// Options as the engine takes them.
#[derive(Clone, Copy, Debug, PartialEq, Eq, Structural)]
pub struct RawFormatterOptions {
    /// The number of the output format.
    pub emit: u32,
    /// Whether to trim trailing whitespace on non-blank lines.
    pub trim: bool,
    /// Whether to unwrap soft-wrapped lines.
    pub unwrap: bool,
}

impl FormatterOptions {
    /// The options as the engine takes them.
    pub open spec fn raw(self) -> RawFormatterOptions {
        RawFormatterOptions {
            emit: self.format.spec_code(),
            trim: self.trim,
            unwrap: self.unwrap,
        }
    }

    /// The options as the engine takes them.
    pub fn to_raw(self) -> (res: RawFormatterOptions)
        ensures
            res == self.raw(),
    {
        RawFormatterOptions { emit: self.format.code(), trim: self.trim, unwrap: self.unwrap }
    }
}

/// The options are handed to the engine as they are, each in its own place.
pub proof fn options_are_handed_on(opts: FormatterOptions)
    ensures
        opts.raw().trim == opts.trim,
        opts.raw().unwrap == opts.unwrap,
        opts.raw().emit == 0 <==> opts.format is Plain,
        opts.raw().emit == 1 <==> opts.format is Vt,
        opts.raw().emit == 2 <==> opts.format is Html,
{
}

/// Formatted output in memory of the engine's or the caller's allocator.
#[derive(Debug)]
pub struct Bytes {
    inner: Object,
    len: usize,
    alloc: usize,
}

impl Bytes {
    /// The address of the first byte.
    pub closed spec fn addr(&self) -> usize {
        self.inner.addr()
    }

    /// How many bytes there are.
    pub closed spec fn length(&self) -> usize {
        self.len
    }

    /// The allocator that the bytes have to be given back to.
    pub closed spec fn allocator(&self) -> usize {
        self.alloc
    }

    /// The address of the first byte.
    pub fn as_raw(&self) -> (res: usize)
        ensures
            res == self.addr(),
    {
        self.inner.as_raw()
    }

    /// How many bytes there are.
    pub fn len(&self) -> (res: usize)
        ensures
            res == self.length(),
    {
        self.len
    }

    /// The allocator that the bytes have to be given back to.
    pub fn allocator_raw(&self) -> (res: usize)
        ensures
            res == self.allocator(),
    {
        self.alloc
    }
}

/// The answer to a request to format into memory that the engine allocates.
#[derive(Clone, Copy, Debug)]
pub struct AllocReply {
    /// The result code.
    pub code: i32,
    /// The address of the first byte, null if there is no memory.
    pub raw: usize,
    /// How many bytes there are.
    pub len: usize,
}

/// The allocator that is used: the given one, or the engine's own.
pub open spec fn chosen_allocator(alloc: Option<&Allocator>) -> usize {
    match alloc {
        Some(alloc) => alloc.addr(),
        None => DEFAULT_ALLOCATOR,
    }
}

impl<'t, H> Formatter<'t, H> {
    /// The address of the formatter.
    pub closed spec fn addr(&self) -> usize {
        self.inner.addr()
    }

    /// `res` holds the formatter that `create` made, or says why it made none.
    pub open spec fn made<F: FnOnce(usize, usize, RawFormatterOptions) -> NewReply>(
        create: F,
        alloc: usize,
        terminal: &Terminal<H>,
        opts: FormatterOptions,
        res: Result<Self>,
    ) -> bool {
        exists|reply: NewReply| #[trigger]
            create.ensures((alloc, terminal.addr(), opts.raw()), reply) && match res {
                Ok(formatter) => reply.outcome() == Ok::<usize, Error>(formatter.addr()),
                Err(e) => reply.outcome() == Err::<usize, Error>(e),
            }
    }

    /// Create a formatter for a terminal's active screen.
    pub fn new(
        terminal: &'t Terminal<H>,
        opts: FormatterOptions,
        create: impl FnOnce(usize, usize, RawFormatterOptions) -> NewReply,
    ) -> (res: Result<Self>)
        requires
            create.requires((DEFAULT_ALLOCATOR, terminal.addr(), opts.raw())),
        ensures
            Self::made(create, DEFAULT_ALLOCATOR, terminal, opts, res),
    {
        Self::new_inner(DEFAULT_ALLOCATOR, terminal, opts, create)
    }

    /// Create a formatter for a terminal's active screen with a custom allocator.
    pub fn new_with_alloc(
        alloc: &Allocator,
        terminal: &'t Terminal<H>,
        opts: FormatterOptions,
        create: impl FnOnce(usize, usize, RawFormatterOptions) -> NewReply,
    ) -> (res: Result<Self>)
        requires
            create.requires((alloc.addr(), terminal.addr(), opts.raw())),
        ensures
            Self::made(create, alloc.addr(), terminal, opts, res),
    {
        Self::new_inner(alloc.to_raw(), terminal, opts, create)
    }

    fn new_inner<F: FnOnce(usize, usize, RawFormatterOptions) -> NewReply>(
        alloc: usize,
        terminal: &'t Terminal<H>,
        opts: FormatterOptions,
        create: F,
    ) -> (res: Result<Self>)
        requires
            create.requires((alloc, terminal.addr(), opts.raw())),
        ensures
            Self::made(create, alloc, terminal, opts, res),
    {
        match create(alloc, terminal.as_raw(), opts.to_raw()).into_object() {
            Ok(inner) => Ok(Formatter { inner, terminal }),
            Err(e) => Err(e),
        }
    }

    /// The address of the formatter.
    pub fn as_raw(&self) -> (res: usize)
        ensures
            res == self.addr(),
    {
        self.inner.as_raw()
    }

    /// Run the formatter and return an allocated buffer with the output.
    ///
    /// Each call formats the current terminal state. The buffer is allocated using the provided
    /// allocator (or the engine's own if there is none).
    pub fn format_alloc(
        &mut self,
        alloc: Option<&Allocator>,
        format: impl FnOnce(usize, usize) -> AllocReply,
    ) -> (res: Result<Bytes>)
        requires
            format.requires((old(self).addr(), chosen_allocator(alloc))),
        ensures
            *final(self) == *old(self),
            exists|reply: AllocReply| #[trigger]
                format.ensures((old(self).addr(), chosen_allocator(alloc)), reply) && match res {
                    Ok(bytes) => {
                        &&& outcome(reply.code) is Ok
                        &&& reply.raw != 0
                        &&& bytes.addr() == reply.raw
                        &&& bytes.length() == reply.len
                        &&& bytes.allocator() == chosen_allocator(alloc)
                    },
                    Err(e) => if outcome(reply.code) is Ok {
                        reply.raw == 0 && e == Error::OutOfMemory
                    } else {
                        outcome(reply.code) == Err::<(), Error>(e)
                    },
                },
    {
        let alloc: usize = match alloc {
            Some(alloc) => alloc.to_raw(),
            None => DEFAULT_ALLOCATOR,
        };
        let reply = format(self.as_raw(), alloc);
        match from_result(reply.code) {
            Ok(_) => match Object::new(reply.raw) {
                Ok(inner) => Ok(Bytes { inner, len: reply.len, alloc }),
                Err(e) => Err(e),
            },
            Err(e) => Err(e),
        }
    }

    /// Run the formatter and produce output into the caller-provided buffer.
    ///
    /// Each call formats the current terminal state. The output is written to the front of the
    /// buffer; the result is its length. If the buffer is too small, this returns `OutOfSpace` with
    /// the size that is needed.
    pub fn format_buf(
        &mut self,
        buf: &mut [u8],
        format: impl FnOnce(usize, usize) -> BufReply<u8>,
    ) -> (res: Result<usize>)
        requires
            format.requires((old(self).addr(), old(buf)@.len() as usize)),
            forall|reply: BufReply<u8>| #[trigger]
                format.ensures((old(self).addr(), old(buf)@.len() as usize), reply) ==> reply.fits(
                    old(buf)@.len() as usize,
                ),
        ensures
            *final(self) == *old(self),
            formatted(format, old(self).addr(), old(buf)@, final(buf)@, res),
    {
        let reply = format(self.as_raw(), buf.len());
        overwrite(buf, &reply.out);
        reply.result()
    }

    /// Query the required buffer size for the formatted output.
    ///
    /// The result can be used to create a sufficiently large buffer for
    /// [`Formatter::format_buf`]. The engine is asked to format without any space, which it
    /// answers with the size that is needed; that it succeeds is an invalid value.
    pub fn format_len(
        &mut self,
        format: impl FnOnce(usize, usize) -> BufReply<u8>,
    ) -> (res: Result<usize>)
        requires
            format.requires((old(self).addr(), 0)),
        ensures
            *final(self) == *old(self),
            measured(format, old(self).addr(), res),
    {
        match format(self.as_raw(), 0).result() {
            Err(Error::OutOfSpace { required }) => Ok(required),
            Err(e) => Err(e),
            Ok(_) => Err(Error::InvalidValue),
        }
    }
}

/// `res` and `after` are what formatting into a buffer that held `before` comes to.
pub open spec fn formatted<F: FnOnce(usize, usize) -> BufReply<u8>>(
    format: F,
    formatter: usize,
    before: Seq<u8>,
    after: Seq<u8>,
    res: Result<usize>,
) -> bool {
    exists|reply: BufReply<u8>|
        {
            &&& #[trigger] format.ensures((formatter, before.len() as usize), reply)
            &&& res == reply.outcome()
            &&& after == overwritten(before, reply.out@)
        }
}

/// `res` is what asking for the size of the output comes to.
pub open spec fn measured<F: FnOnce(usize, usize) -> BufReply<u8>>(
    format: F,
    formatter: usize,
    res: Result<usize>,
) -> bool {
    exists|reply: BufReply<u8>| #[trigger]
        format.ensures((formatter, 0), reply) && res == match reply.outcome() {
            Err(Error::OutOfSpace { required }) => Ok(required),
            Err(e) => Err(e),
            Ok(_) => Err(Error::InvalidValue),
        }
}

/// The output of `formatter` is `output`: it is written where there is space for it, and where there
/// is not, the engine answers `OutOfSpace` with its length.
pub open spec fn formats_as<F: FnOnce(usize, usize) -> BufReply<u8>>(
    format: F,
    formatter: usize,
    output: Seq<u8>,
) -> bool {
    forall|room: usize, reply: BufReply<u8>| #[trigger]
        format.ensures((formatter, room), reply) ==> {
            &&& reply.len == output.len()
            &&& if output.len() <= room {
                reply.code == abi::SUCCESS && reply.out@ == output
            } else {
                reply.code == abi::OUT_OF_SPACE && reply.out@.len() == 0
            }
        }
}

/// While the terminal stays as it is, the size that [`Formatter::format_len`] reports is the one
/// that [`Formatter::format_buf`] needs: a buffer that has it gets the output, and one that does not
/// is refused with the same size and left as it was.
pub proof fn the_measured_size_is_needed<
    F: FnOnce(usize, usize) -> BufReply<u8>,
    G: FnOnce(usize, usize) -> BufReply<u8>,
>(
    measure: F,
    format: G,
    formatter: usize,
    output: Seq<u8>,
    size: usize,
    before: Seq<u8>,
    after: Seq<u8>,
    res: Result<usize>,
)
    requires
        formats_as(measure, formatter, output),
        formats_as(format, formatter, output),
        measured(measure, formatter, Ok(size)),
        before.len() <= usize::MAX,
        formatted(format, formatter, before, after, res),
    ensures
        size == output.len(),
        before.len() >= size ==> {
            &&& res == Ok::<usize, Error>(size)
            &&& after.take(size as int) == output
            &&& after.skip(size as int) == before.skip(size as int)
        },
        before.len() < size ==> {
            &&& res == Err::<usize, Error>(Error::OutOfSpace { required: size })
            &&& after == before
        },
{
    if before.len() >= size {
        assert(after =~= overwritten(before, output));
        assert(after.take(size as int) =~= output);
        assert(after.skip(size as int) =~= before.skip(size as int));
    } else {
        assert(after =~= before);
    }
}

/// Output format.
#[derive(Clone, Copy, Debug, PartialEq, Eq, Structural)]
pub enum Format {
    /// Plain text (no escape sequences).
    Plain,
    /// VT sequences preserving colors, styles, URLs, etc.
    Vt,
    /// HTML with inline styles.
    Html,
}

impl Format {
    /// The number that stands for this value in the engine's interface.
    pub open spec fn spec_code(self) -> u32 {
        match self {
            Format::Plain => 0,
            Format::Vt => 1,
            Format::Html => 2,
        }
    }

    /// The value that `code` stands for; a number that stands for none is an invalid value.
    pub open spec fn decoded(code: u32) -> Result<Self> {
        match code {
            0 => Ok(Format::Plain),
            1 => Ok(Format::Vt),
            2 => Ok(Format::Html),
            _ => Err(Error::InvalidValue),
        }
    }

    /// The number that stands for this value in the engine's interface.
    pub fn code(self) -> (res: u32)
        ensures
            res == self.spec_code(),
    {
        match self {
            Format::Plain => 0,
            Format::Vt => 1,
            Format::Html => 2,
        }
    }

    /// The value that `code` stands for.
    pub fn from_code(code: u32) -> (res: Result<Self>)
        ensures
            res == Self::decoded(code),
    {
        match code {
            0 => Ok(Format::Plain),
            1 => Ok(Format::Vt),
            2 => Ok(Format::Html),
            _ => Err(Error::InvalidValue),
        }
    }

    /// Every value has a number of its own, and a number decodes to the value that it stands for
    /// and to nothing else.
    pub proof fn codes_round_trip(self, code: u32)
        ensures
            Self::decoded(self.spec_code()) == Ok::<Self, Error>(self),
            Self::decoded(code) matches Ok(value) ==> value.spec_code() == code,
    {
    }

    /// The engine counts the values from zero on: `Plain`, `Vt`, `Html`. No other number stands for
    /// one.
    pub proof fn values_are_counted(self, code: u32)
        ensures
            self is Plain <==> self.spec_code() == 0,
            self is Vt <==> self.spec_code() == 1,
            self is Html <==> self.spec_code() == 2,
            Self::decoded(code) == Ok::<Self, Error>(self) <==> code == self.spec_code(),
            Self::decoded(code) is Ok <==> code < 3,
            Self::decoded(code) is Err ==> Self::decoded(code) == Err::<Self, Error>(
                Error::InvalidValue,
            ),
    {
    }
}

} // verus!
