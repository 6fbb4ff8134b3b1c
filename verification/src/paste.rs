//! Utilities for validating and encoding paste data.
use crate::abi;
use crate::buffer::{overwrite, overwritten};
use crate::error::{from_result_with_len, outcome_with_len, Result};
use vstd::prelude::*;

verus! {

/// The byte of a newline.
pub const NEWLINE: u8 = 0x0a;

/// The sequence that ends a bracketed paste, `ESC [ 2 0 1 ~`.
pub open spec fn paste_end() -> Seq<u8> {
    seq![0x1bu8, 0x5b, 0x32, 0x30, 0x31, 0x7e]
}

/// `part` stands in `data` from `at` on.
pub open spec fn stands_at(data: Seq<u8>, part: Seq<u8>, at: int) -> bool {
    0 <= at && at + part.len() <= data.len() && data.subrange(at, at + part.len()) == part
}

/// `data` holds no newline and no sequence that ends a bracketed paste.
pub open spec fn is_safe_data(data: Seq<u8>) -> bool {
    &&& !data.contains(NEWLINE)
    &&& forall|at: int| !#[trigger] stands_at(data, paste_end(), at)
}

/// Whether the sequence that ends a bracketed paste stands in `data` from `at` on.
fn ends_paste_at(data: &[u8], at: usize) -> (res: bool)
    requires
        at < data@.len(),
    ensures
        res == stands_at(data@, paste_end(), at as int),
{
    if data.len() - at < 6 {
        return false;
    }
    let res = data[at] == 0x1b && data[at + 1] == 0x5b && data[at + 2] == 0x32 && data[at + 3]
        == 0x30 && data[at + 4] == 0x31 && data[at + 5] == 0x7e;
    proof {
        let part = data@.subrange(at as int, at + 6);
        if res {
            assert(part =~= paste_end());
        } else if part == paste_end() {
            assert(forall|k: int| 0 <= k < 6 ==> part[k] == data@[at + k]);
            assert(part[0] == 0x1b && part[1] == 0x5b && part[2] == 0x32 && part[3] == 0x30
                && part[4] == 0x31 && part[5] == 0x7e);
        }
    }
    res
}

/// Check if paste data is safe to paste into the terminal.
///
/// Data is considered unsafe if it contains newlines, which can inject commands, or the sequence
/// `ESC [ 2 0 1 ~`, which ends a bracketed paste and can be used to inject commands too.
///
/// The check is conservative: it does not look at the state of the terminal.
#[must_use]
pub fn is_safe(data: &str) -> (res: bool)
    ensures
        res == is_safe_data(vstd::utf8::encode_utf8(data@)),
{
    let bytes = data.as_bytes();
    let mut at: usize = 0;
    while at < bytes.len()
        invariant
            at <= bytes@.len(),
            bytes@ == vstd::utf8::encode_utf8(data@),
            forall|j: int| 0 <= j < at ==> bytes@[j] != NEWLINE,
            forall|j: int| 0 <= j < at ==> !#[trigger] stands_at(bytes@, paste_end(), j),
        decreases bytes@.len() - at,
    {
        if bytes[at] == NEWLINE {
            assert(bytes@.contains(NEWLINE));
            return false;
        }
        if ends_paste_at(bytes, at) {
            return false;
        }
        at += 1;
    }
    true
}

/// Paste data that is safe stays safe when it is cut: every part of it is safe.
pub proof fn parts_of_safe_data_are_safe(front: Seq<u8>, back: Seq<u8>)
    requires
        is_safe_data(front + back),
    ensures
        is_safe_data(front),
        is_safe_data(back),
{
    let data = front + back;
    assert forall|i: int| 0 <= i < front.len() implies front[i] != NEWLINE by {
        assert(data[i] == front[i]);
    }
    assert forall|i: int| 0 <= i < back.len() implies back[i] != NEWLINE by {
        assert(data[front.len() + i] == back[i]);
    }
    assert forall|at: int| !#[trigger] stands_at(front, paste_end(), at) by {
        if stands_at(front, paste_end(), at) {
            assert(data.subrange(at, at + 6) =~= front.subrange(at, at + 6));
            assert(stands_at(data, paste_end(), at));
        }
    }
    assert forall|at: int| !#[trigger] stands_at(back, paste_end(), at) by {
        if stands_at(back, paste_end(), at) {
            assert(data.subrange(front.len() + at, front.len() + at + 6) =~= back.subrange(
                at,
                at + 6,
            ));
            assert(stands_at(data, paste_end(), front.len() + at));
        }
    }
}

/// Two pieces of safe data may be unsafe when put together only by a sequence that ends a
/// bracketed paste across the seam.
pub proof fn only_the_seam_can_make_data_unsafe(front: Seq<u8>, back: Seq<u8>)
    requires
        is_safe_data(front),
        is_safe_data(back),
        !is_safe_data(front + back),
    ensures
        exists|at: int|
            #![trigger stands_at(front + back, paste_end(), at)]
            stands_at(front + back, paste_end(), at) && front.len() - 6 < at < front.len(),
{
    let data = front + back;
    if data.contains(NEWLINE) {
        let i = choose|i: int| 0 <= i < data.len() && data[i] == NEWLINE;
        if i < front.len() {
            assert(front[i] == NEWLINE);
        } else {
            assert(back[i - front.len()] == NEWLINE);
        }
    }
    let at = choose|at: int| #[trigger] stands_at(data, paste_end(), at);
    if at + 6 <= front.len() {
        assert(front.subrange(at, at + 6) =~= data.subrange(at, at + 6));
        assert(stands_at(front, paste_end(), at));
    }
    if at >= front.len() {
        assert(back.subrange(at - front.len(), at - front.len() + 6) =~= data.subrange(at, at + 6));
        assert(stands_at(back, paste_end(), at - front.len()));
    }
}

/// Data with a line feed anywhere in it is unsafe, and so is data with the bytes `ESC [ 2 0 1 ~`
/// anywhere in it, whatever stands around them.
pub proof fn newlines_and_paste_ends_are_unsafe(front: Seq<u8>, back: Seq<u8>)
    ensures
        !is_safe_data(front + seq![0x0au8] + back),
        !is_safe_data(front + seq![0x1bu8, 0x5b, 0x32, 0x30, 0x31, 0x7e] + back),
{
    let line = front + seq![0x0au8] + back;
    assert(line[front.len() as int] == NEWLINE);
    let end = seq![0x1bu8, 0x5b, 0x32, 0x30, 0x31, 0x7e];
    let data = front + end + back;
    let at = front.len() as int;
    assert(data.subrange(at, at + 6) =~= end);
    assert(paste_end() =~= end);
    assert(stands_at(data, paste_end(), at));
}

/// Data is unsafe for no other reason: without a line feed it is only unsafe if it can be cut into a
/// front, the bytes `ESC [ 2 0 1 ~`, and a back.
pub proof fn nothing_else_is_unsafe(data: Seq<u8>)
    requires
        !is_safe_data(data),
        forall|i: int| 0 <= i < data.len() ==> data[i] != 0x0a,
    ensures
        exists|at: int|
            0 <= at <= data.len() - 6 && data == #[trigger] data.take(at) + seq![
                0x1bu8,
                0x5b,
                0x32,
                0x30,
                0x31,
                0x7e,
            ] + data.skip(at + 6),
{
    let end = seq![0x1bu8, 0x5b, 0x32, 0x30, 0x31, 0x7e];
    assert(!data.contains(NEWLINE));
    let at = choose|at: int| #[trigger] stands_at(data, paste_end(), at);
    assert(paste_end() =~= end);
    assert(data.subrange(at, at + 6) == end);
    assert(data =~= data.take(at) + data.subrange(at, at + 6) + data.skip(at + 6));
}

/// The answer to a request to encode paste data.
#[derive(Debug)]
pub struct EncodeReply {
    /// The result code.
    pub code: i32,
    /// How many bytes were written, or, if the buffer was too small, how many it has to hold.
    pub len: usize,
    /// The data as the encoding left it.
    pub data: Vec<u8>,
    /// What was written at the front of the buffer.
    pub out: Vec<u8>,
}

impl EncodeReply {
    /// Whether the answer is one for `len` bytes of data and a buffer of `room` bytes.
    pub open spec fn fits(self, len: nat, room: nat) -> bool {
        &&& self.data@.len() == len
        &&& self.out@.len() <= room
        &&& self.code == abi::SUCCESS ==> self.out@.len() == self.len
    }
}

/// Encode paste data for writing to the terminal pty.
///
/// The encoding replaces unsafe control bytes by spaces, wraps the data in bracketed paste
/// sequences if `bracketed` is true, and else replaces newlines by carriage returns. It changes
/// `data` in place and writes its result to `buf`.
///
/// If the buffer is too small, this returns `OutOfSpace` with the size that is needed.
pub fn encode(
    data: &mut [u8],
    bracketed: bool,
    buf: &mut [u8],
    encoder: impl FnOnce(&[u8], bool, usize) -> EncodeReply,
) -> (res: Result<usize>)
    requires
        encoder.requires((&*old(data), bracketed, old(buf)@.len() as usize)),
        forall|reply: EncodeReply| #[trigger]
            encoder.ensures((&*old(data), bracketed, old(buf)@.len() as usize), reply)
                ==> reply.fits(old(data)@.len(), old(buf)@.len()),
    ensures
        exists|reply: EncodeReply|
            {
                &&& #[trigger] encoder.ensures(
                    (&*old(data), bracketed, old(buf)@.len() as usize),
                    reply,
                )
                &&& res == outcome_with_len(reply.code, reply.len)
                &&& final(data)@ == reply.data@
                &&& final(buf)@ == overwritten(old(buf)@, reply.out@)
            },
{
    let room: usize = buf.len();
    let reply = encoder(&*data, bracketed, room);
    overwrite(data, &reply.data);
    overwrite(buf, &reply.out);
    assert(data@ =~= reply.data@);
    from_result_with_len(reply.code, reply.len)
}

} // verus!
