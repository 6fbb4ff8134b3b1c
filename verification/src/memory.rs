//! Handles to the engine's objects, and what a custom allocator has to do for the engine.
//!
//! The engine asks an allocator for memory by a length and by the logarithm of an alignment. The
//! functions here decide what such a request comes to; the request to the underlying allocator
//! itself is a function value that takes the [`Layout`] and answers with an address, where an
//! address of zero means that there is no memory.
use crate::error::{Error, Result};
use vstd::prelude::*;

verus! {

//------------------------------------
// Handles
//------------------------------------

/// An object that the engine created and this library owns.
///
/// Its address is never null.
#[derive(Debug)]
pub struct Object {
    raw: usize,
}

impl Object {
    #[verifier::type_invariant]
    spec fn not_null(self) -> bool {
        self.raw != 0
    }

    /// The address of the object.
    pub closed spec fn addr(&self) -> usize {
        self.raw
    }

    /// Take the object at `raw`, which is null if the engine had no memory for it.
    pub fn new(raw: usize) -> (res: Result<Self>)
        ensures
            match res {
                Ok(object) => raw != 0 && object.addr() == raw,
                Err(e) => raw == 0 && e == Error::OutOfMemory,
            },
    {
        if raw == 0 {
            Err(Error::OutOfMemory)
        } else {
            Ok(Object { raw })
        }
    }

    /// The address of the object.
    pub fn as_raw(&self) -> (res: usize)
        ensures
            res == self.addr(),
            res != 0,
    {
        proof {
            use_type_invariant(self);
        }
        self.raw
    }
}

/// An object that the engine owns and lent to this library.
///
/// Its address is never null.
#[derive(Debug)]
pub struct Ref {
    raw: usize,
}

impl Ref {
    #[verifier::type_invariant]
    spec fn not_null(self) -> bool {
        self.raw != 0
    }

    /// The address of the object.
    pub closed spec fn addr(&self) -> usize {
        self.raw
    }

    /// Take the object at `raw`, which is null if there is none.
    pub fn new(raw: usize) -> (res: Result<Self>)
        ensures
            match res {
                Ok(object) => raw != 0 && object.addr() == raw,
                Err(e) => raw == 0 && e == Error::OutOfMemory,
            },
    {
        if raw == 0 {
            Err(Error::OutOfMemory)
        } else {
            Ok(Ref { raw })
        }
    }

    /// The address of the object.
    pub fn as_raw(&self) -> (res: usize)
        ensures
            res == self.addr(),
            res != 0,
    {
        proof {
            use_type_invariant(self);
        }
        self.raw
    }
}

/// A custom allocator that the engine uses for its memory.
///
/// This is the address of the allocator's descriptor. The descriptor has to outlive every object
/// that was created with it.
#[derive(Debug)]
pub struct Allocator {
    raw: usize,
}

impl Allocator {
    /// The address of the allocator's descriptor.
    pub closed spec fn addr(&self) -> usize {
        self.raw
    }

    /// The allocator whose descriptor is at `raw`; null stands for the engine's own.
    pub fn from_raw(raw: usize) -> (res: Self)
        ensures
            res.addr() == raw,
    {
        Allocator { raw }
    }

    /// The address of the allocator's descriptor.
    pub fn to_raw(&self) -> (res: usize)
        ensures
            res == self.addr(),
    {
        self.raw
    }
}

/// The address that stands for the engine's own allocator.
pub const DEFAULT_ALLOCATOR: usize = 0;

/// What the engine answers to a request for a new object: a result code and an address.
#[derive(Clone, Copy, Debug)]
pub struct NewReply {
    /// The result code.
    pub code: i32,
    /// The address of the object, null if there is none.
    pub raw: usize,
}

impl NewReply {
    /// The address of the new object, or why there is none: the call failed, or it succeeded
    /// without an object.
    pub open spec fn outcome(self) -> Result<usize> {
        match crate::error::outcome(self.code) {
            Ok(_) => if self.raw == 0 {
                Err(Error::OutOfMemory)
            } else {
                Ok(self.raw)
            },
            Err(e) => Err(e),
        }
    }

    /// Take the new object.
    pub fn into_object(self) -> (res: Result<Object>)
        ensures
            match res {
                Ok(object) => self.outcome() == Ok::<usize, Error>(object.addr()),
                Err(e) => self.outcome() == Err::<usize, Error>(e),
            },
    {
        match crate::error::from_result(self.code) {
            Ok(_) => Object::new(self.raw),
            Err(e) => Err(e),
        }
    }
}

/// `res` holds the object that `create(alloc)` made, or says why it made none.
pub open spec fn created<F: FnOnce(usize) -> NewReply>(
    create: F,
    alloc: usize,
    res: Result<usize>,
) -> bool {
    exists|reply: NewReply| #[trigger] create.ensures((alloc,), reply) && res == reply.outcome()
}

/// The address that a constructor's result holds, or its error.
pub open spec fn addr_of(res: Result<Object>) -> Result<usize> {
    match res {
        Ok(object) => Ok(object.addr()),
        Err(e) => Err(e),
    }
}

/// Create an object with the allocator at `alloc`.
pub fn new_object<F: FnOnce(usize) -> NewReply>(alloc: usize, create: F) -> (res: Result<Object>)
    requires
        create.requires((alloc,)),
    ensures
        created(create, alloc, addr_of(res)),
{
    create(alloc).into_object()
}

//------------------------------------
// Layouts
//------------------------------------

/// The size and the alignment of a block of memory.
#[derive(Clone, Copy, Debug, PartialEq, Eq, Structural)]
pub struct Layout {
    /// The size in bytes.
    pub size: usize,
    /// The alignment in bytes, a power of two.
    pub align: usize,
}

/// The least multiple of `align` that is not under `size`.
pub open spec fn rounded_up(size: nat, align: nat) -> nat {
    ((size + align - 1) / align as int * align) as nat
}

/// The layout of `len` bytes at a multiple of `2^alignment`.
///
/// There is none where the size, rounded up to the alignment, exceeds what can be addressed.
pub open spec fn layout_of(len: usize, alignment: u8) -> Option<Layout> {
    let align = vstd::arithmetic::power2::pow2(alignment as nat);
    if rounded_up(len as nat, align) <= isize::MAX {
        Some(Layout { size: len, align: align as usize })
    } else {
        None
    }
}

/// Rounding up to a power of two stays within `isize` exactly if the size is that much below the
/// first value outside.
proof fn lemma_rounded_up_fits(size: nat, e: nat, bits: nat)
    requires
        e < bits,
    ensures
        rounded_up(size, vstd::arithmetic::power2::pow2(e)) < vstd::arithmetic::power2::pow2(
            (bits - 1) as nat,
        ) <==> size + vstd::arithmetic::power2::pow2(e) <= vstd::arithmetic::power2::pow2(
            (bits - 1) as nat,
        ),
{
    let align = vstd::arithmetic::power2::pow2(e);
    let rest = (bits - 1 - e) as nat;
    let k = vstd::arithmetic::power2::pow2(rest);
    let limit = vstd::arithmetic::power2::pow2((bits - 1) as nat);
    vstd::arithmetic::power2::lemma_pow2_pos(e);
    vstd::arithmetic::power2::lemma_pow2_adds(e, rest);
    assert(limit == align * k);
    let q = (size + align - 1) / align as int;
    let r = (size + align - 1) % align as int;
    vstd::arithmetic::div_mod::lemma_fundamental_div_mod(size + align - 1, align as int);
    assert(size + align - 1 == align * q + r && 0 <= r < align);
    assert(rounded_up(size, align) == q * align) by {
        assert(q * align >= 0) by (nonlinear_arith)
            requires
                q >= 0,
                align >= 0,
        ;
        assert(q >= 0) by {
            vstd::arithmetic::div_mod::lemma_div_pos_is_pos(size + align - 1, align as int);
        }
    }
    if q * align < align * k {
        assert(q < k) by (nonlinear_arith)
            requires
                q * align < align * k,
                align > 0,
        ;
        assert(align * q + align <= align * k) by (nonlinear_arith)
            requires
                q + 1 <= k,
                align > 0,
        ;
    }
    if size + align <= align * k {
        assert(align * q < align * k);
        assert(q * align == align * q) by (nonlinear_arith);
    }
}

impl Layout {
    /// The layout of `len` bytes at a multiple of `2^alignment`, if there is one.
    pub fn from_request(len: usize, alignment: u8) -> (res: Option<Self>)
        requires
            alignment < usize::BITS,
        ensures
            res == layout_of(len, alignment),
    {
        let align: usize = 1usize << alignment;
        let top: usize = isize::MAX as usize;
        proof {
            let e = alignment as nat;
            let align_spec = vstd::arithmetic::power2::pow2(e);
            vstd::arithmetic::power2::lemma2_to64();
            vstd::arithmetic::power2::lemma2_to64_rest();
            vstd::arithmetic::power2::lemma_pow2_pos(e);
            if e < usize::BITS - 1 {
                vstd::arithmetic::power2::lemma_pow2_strictly_increases(
                    e,
                    (usize::BITS - 1) as nat,
                );
            }
            assert(align_spec <= top + 1);
            vstd::bits::lemma_usize_shl_is_mul(1usize, alignment as usize);
            assert(align == align_spec);
            lemma_rounded_up_fits(len as nat, e, usize::BITS as nat);
        }
        if align <= top + 1 && len <= top + 1 - align {
            Some(Layout { size: len, align })
        } else {
            None
        }
    }
}

//------------------------------------
// The global allocator
//------------------------------------

/// Allocate `len` bytes at a multiple of `2^alignment` with the global allocator.
pub fn global_alloc(
    len: usize,
    alignment: u8,
    allocate: impl FnOnce(Layout) -> usize,
) -> (res: usize)
    requires
        len > 0,
        alignment < usize::BITS,
        layout_of(len, alignment) matches Some(layout) ==> allocate.requires((layout,)),
    ensures
        match layout_of(len, alignment) {
            Some(layout) => allocate.ensures((layout,), res),
            None => res == 0,
        },
{
    match Layout::from_request(len, alignment) {
        Some(layout) => allocate(layout),
        None => 0,
    }
}

/// Give the `len` bytes at `mem` back to the global allocator.
///
/// Returns whether they were given back: nothing happens to a block that has no layout.
pub fn global_free(
    mem: usize,
    len: usize,
    alignment: u8,
    deallocate: impl FnOnce(usize, Layout),
) -> (res: bool)
    requires
        alignment < usize::BITS,
        layout_of(len, alignment) matches Some(layout) ==> deallocate.requires((mem, layout)),
    ensures
        res == layout_of(len, alignment) is Some,
        layout_of(len, alignment) matches Some(layout) ==> deallocate.ensures((mem, layout), ()),
{
    match Layout::from_request(len, alignment) {
        Some(layout) => {
            deallocate(mem, layout);
            true
        },
        None => false,
    }
}

/// Resize a block of the global allocator in place, which is never possible.
pub fn global_resize(_mem: usize, _old_len: usize, _alignment: u8, _new_len: usize) -> (res: bool)
    ensures
        !res,
{
    false
}

/// Resize a block of the global allocator, which may move it.
pub fn global_remap(
    mem: usize,
    old_len: usize,
    alignment: u8,
    new_len: usize,
    reallocate: impl FnOnce(usize, Layout, usize) -> usize,
) -> (res: usize)
    requires
        new_len > 0,
        alignment < usize::BITS,
        layout_of(new_len, alignment) is Some,
        layout_of(old_len, alignment) matches Some(layout) ==> reallocate.requires(
            (mem, layout, new_len),
        ),
    ensures
        match layout_of(old_len, alignment) {
            Some(layout) => reallocate.ensures((mem, layout, new_len), res),
            None => res == 0,
        },
{
    match Layout::from_request(old_len, alignment) {
        Some(layout) => reallocate(mem, layout, new_len),
        None => 0,
    }
}

//------------------------------------
// An allocator of the caller
//------------------------------------

/// Allocate `len` bytes at a multiple of `2^alignment` with the allocator at `allocator`.
///
/// `allocate` is the allocator's own function; it answers `None` where it has no memory.
pub fn adapter_alloc(
    allocator: usize,
    len: usize,
    alignment: u8,
    allocate: impl FnOnce(usize, Layout) -> Option<usize>,
) -> (res: usize)
    requires
        alignment < usize::BITS,
        layout_of(len, alignment) is Some && allocator != 0 ==> allocate.requires(
            (allocator, layout_of(len, alignment)->0),
        ),
    ensures
        match layout_of(len, alignment) {
            Some(layout) if allocator != 0 => exists|answer: Option<usize>| #[trigger]
                allocate.ensures((allocator, layout), answer) && res == address_or_null(answer),
            _ => res == 0,
        },
{
    match Layout::from_request(len, alignment) {
        Some(layout) => {
            if allocator != 0 {
                match allocate(allocator, layout) {
                    Some(mem) => mem,
                    None => 0,
                }
            } else {
                0
            }
        },
        None => 0,
    }
}

/// The address that an allocator answered with, null if it had no memory.
pub open spec fn address_or_null(answer: Option<usize>) -> usize {
    match answer {
        Some(mem) => mem,
        None => 0,
    }
}

/// Give the `len` bytes at `mem` back to the allocator at `allocator`.
///
/// Returns whether they were given back: nothing happens to a null block, to a block that has no
/// layout, and without an allocator.
pub fn adapter_free(
    allocator: usize,
    mem: usize,
    len: usize,
    alignment: u8,
    deallocate: impl FnOnce(usize, usize, Layout),
) -> (res: bool)
    requires
        alignment < usize::BITS,
        layout_of(len, alignment) is Some && mem != 0 && allocator != 0 ==> deallocate.requires(
            (allocator, mem, layout_of(len, alignment)->0),
        ),
    ensures
        res == (mem != 0 && allocator != 0 && layout_of(len, alignment) is Some),
        res ==> deallocate.ensures((allocator, mem, layout_of(len, alignment)->0), ()),
{
    if mem == 0 {
        return false;
    }
    match Layout::from_request(len, alignment) {
        Some(layout) => {
            if allocator != 0 {
                deallocate(allocator, mem, layout);
                true
            } else {
                false
            }
        },
        None => false,
    }
}

/// Resize a block in place.
///
/// An allocator does not promise to keep a block where it is when it grows or shrinks it, so an
/// in-place resize is never possible.
pub fn adapter_resize(_mem: usize, _old_len: usize, _alignment: u8, _new_len: usize) -> (res: bool)
    ensures
        !res,
{
    false
}

/// Resize a block of the allocator at `allocator`, which may move it.
///
/// The block is shrunk if the new length is under the old one, and else grown. `resize_to` takes
/// the allocator, the block, whether to shrink it, the old layout and the new one.
pub fn adapter_remap(
    allocator: usize,
    mem: usize,
    old_len: usize,
    alignment: u8,
    new_len: usize,
    resize_to: impl FnOnce(usize, usize, bool, Layout, Layout) -> Option<usize>,
) -> (res: usize)
    requires
        alignment < usize::BITS,
        remaps(allocator, mem, old_len, alignment, new_len) ==> resize_to.requires(
            remap_args(allocator, mem, old_len, alignment, new_len),
        ),
    ensures
        if remaps(allocator, mem, old_len, alignment, new_len) {
            exists|answer: Option<usize>| #[trigger]
                resize_to.ensures(
                    remap_args(allocator, mem, old_len, alignment, new_len),
                    answer,
                ) && res == address_or_null(answer)
        } else {
            res == 0
        },
{
    if allocator == 0 || mem == 0 {
        return 0;
    }
    match Layout::from_request(old_len, alignment) {
        Some(old_layout) => match Layout::from_request(new_len, alignment) {
            Some(new_layout) => match resize_to(
                allocator,
                mem,
                new_len < old_len,
                old_layout,
                new_layout,
            ) {
                Some(moved) => moved,
                None => 0,
            },
            None => 0,
        },
        None => 0,
    }
}

/// Whether a request to resize a block reaches the allocator at all.
pub open spec fn remaps(
    allocator: usize,
    mem: usize,
    old_len: usize,
    alignment: u8,
    new_len: usize,
) -> bool {
    &&& allocator != 0
    &&& mem != 0
    &&& layout_of(old_len, alignment) is Some
    &&& layout_of(new_len, alignment) is Some
}

/// What the allocator is asked when a request to resize a block reaches it.
pub open spec fn remap_args(
    allocator: usize,
    mem: usize,
    old_len: usize,
    alignment: u8,
    new_len: usize,
) -> (usize, usize, bool, Layout, Layout) {
    (
        allocator,
        mem,
        new_len < old_len,
        layout_of(old_len, alignment)->0,
        layout_of(new_len, alignment)->0,
    )
}

/// A block that has a layout keeps one when it shrinks.
pub proof fn shorter_blocks_have_layouts(len: usize, shorter: usize, alignment: u8)
    requires
        alignment < usize::BITS,
        shorter <= len,
        layout_of(len, alignment) is Some,
    ensures
        layout_of(shorter, alignment) is Some,
{
    vstd::arithmetic::power2::lemma2_to64();
    vstd::arithmetic::power2::lemma2_to64_rest();
    lemma_rounded_up_fits(len as nat, alignment as nat, usize::BITS as nat);
    lemma_rounded_up_fits(shorter as nat, alignment as nat, usize::BITS as nat);
}

/// Rounding up gives the first multiple that is not under the size.
pub proof fn rounding_up_is_least(size: nat, align: nat)
    requires
        align > 0,
    ensures
        rounded_up(size, align) % align == 0,
        size <= rounded_up(size, align) < size + align,
{
    let top = size + align - 1;
    let q = top / align as int;
    vstd::arithmetic::div_mod::lemma_fundamental_div_mod(top, align as int);
    vstd::arithmetic::div_mod::lemma_div_pos_is_pos(top, align as int);
    assert(q * align == align * q && q * align >= 0) by (nonlinear_arith)
        requires
            q >= 0,
            align > 0,
    ;
    vstd::arithmetic::div_mod::lemma_mod_multiples_basic(q, align as int);
}

/// A layout has the size that was asked for and the power of two as its alignment; and there is one
/// exactly if some multiple of the alignment that can be addressed has room for the size.
pub proof fn a_layout_is_what_was_asked_for(len: usize, alignment: u8, multiple: nat)
    requires
        alignment < usize::BITS,
    ensures
        layout_of(len, alignment) matches Some(layout) ==> {
            &&& layout.size == len
            &&& layout.align == vstd::arithmetic::power2::pow2(alignment as nat)
        },
        multiple % vstd::arithmetic::power2::pow2(alignment as nat) == 0 && len <= multiple
            <= isize::MAX ==> layout_of(len, alignment) is Some,
        layout_of(len, alignment) is Some ==> {
            let end = rounded_up(len as nat, vstd::arithmetic::power2::pow2(alignment as nat));
            &&& end % vstd::arithmetic::power2::pow2(alignment as nat) == 0
            &&& len <= end <= isize::MAX
        },
{
    let align = vstd::arithmetic::power2::pow2(alignment as nat);
    vstd::arithmetic::power2::lemma_pow2_pos(alignment as nat);
    vstd::arithmetic::power2::lemma2_to64();
    vstd::arithmetic::power2::lemma2_to64_rest();
    if alignment < usize::BITS - 1 {
        vstd::arithmetic::power2::lemma_pow2_strictly_increases(
            alignment as nat,
            (usize::BITS - 1) as nat,
        );
    }
    rounding_up_is_least(len as nat, align);
    if multiple % align == 0 && len <= multiple {
        let end = rounded_up(len as nat, align);
        if multiple < end {
            vstd::arithmetic::div_mod::lemma_fundamental_div_mod(multiple as int, align as int);
            vstd::arithmetic::div_mod::lemma_fundamental_div_mod(end as int, align as int);
            let a = multiple / align;
            let b = end / align;
            assert(b >= a + 1) by (nonlinear_arith)
                requires
                    multiple == align * a,
                    end == align * b,
                    multiple < end,
                    align > 0,
            ;
            assert(align * b >= align * a + align) by (nonlinear_arith)
                requires
                    b >= a + 1,
                    align > 0,
            ;
        }
    }
}

/// A request to resize a block hands on the block as it is, with its old and its new length, and is
/// one to shrink it exactly if the new length is the smaller one.
pub proof fn a_resized_block_keeps_its_place(
    allocator: usize,
    mem: usize,
    old_len: usize,
    alignment: u8,
    new_len: usize,
)
    requires
        remaps(allocator, mem, old_len, alignment, new_len),
    ensures
        ({
            let (to, at, shrinks, before, after) = remap_args(
                allocator,
                mem,
                old_len,
                alignment,
                new_len,
            );
            &&& to == allocator
            &&& at == mem
            &&& shrinks <==> new_len < old_len
            &&& before.size == old_len
            &&& after.size == new_len
            &&& before.align == after.align
            &&& shrinks <==> after.size < before.size
        }),
{
}

/// An object is made exactly if the engine says so and gives its address, which is the one that the
/// object has; success without an address is a lack of memory.
pub proof fn an_object_has_an_address(reply: NewReply, addr: usize)
    ensures
        reply.outcome() == Ok::<usize, Error>(addr) <==> reply.code == 0 && reply.raw == addr
            && addr != 0,
        reply.code == 0 && reply.raw == 0 ==> reply.outcome() == Err::<usize, Error>(
            Error::OutOfMemory,
        ),
        reply.code != 0 ==> reply.outcome() is Err && crate::error::outcome(reply.code) == Err::<
            (),
            Error,
        >(reply.outcome()->Err_0),
{
}

} // verus!
