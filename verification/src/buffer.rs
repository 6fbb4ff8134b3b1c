//! Calls of the engine that write to a buffer of the caller.
use crate::abi;
use crate::error::{from_result_with_len, outcome_with_len, Error, Result};
use vstd::prelude::*;

verus! {

/// The answer of a call that writes to a buffer.
#[derive(Debug)]
pub struct BufReply<T> {
    /// The result code.
    pub code: i32,
    /// How many items were written, or, if the buffer was too small, how many it has to hold.
    pub len: usize,
    /// What was written at the front of the buffer.
    pub out: Vec<T>,
}

impl<T> BufReply<T> {
    /// Whether the answer is one for a buffer of `room` items: no more was written than the buffer
    /// holds, and after success as much as was reported.
    pub open spec fn fits(self, room: usize) -> bool {
        &&& self.out@.len() <= room
        &&& self.code == abi::SUCCESS ==> self.out@.len() == self.len
    }

    /// What the answer comes to.
    pub open spec fn outcome(self) -> Result<usize> {
        outcome_with_len(self.code, self.len)
    }

    /// What the answer comes to.
    pub fn result(&self) -> (res: Result<usize>)
        ensures
            res == self.outcome(),
    {
        from_result_with_len(self.code, self.len)
    }
}

/// `buf` with `front` written over its first items.
pub open spec fn overwritten<T>(buf: Seq<T>, front: Seq<T>) -> Seq<T> {
    front + buf.skip(front.len() as int)
}

/// Write `front` over the first items of `buf`.
pub fn overwrite<T: Copy>(buf: &mut [T], front: &Vec<T>)
    requires
        front@.len() <= old(buf)@.len(),
    ensures
        final(buf)@ == overwritten(old(buf)@, front@),
{
    let ghost before = buf@;
    let mut i: usize = 0;
    while i < front.len()
        invariant
            i <= front@.len() <= before.len(),
            buf@.len() == before.len(),
            forall|j: int| 0 <= j < i ==> buf@[j] == front@[j],
            forall|j: int| i <= j < before.len() ==> buf@[j] == before[j],
        decreases front@.len() - i,
    {
        buf[i] = front[i];
        i += 1;
    }
    assert(buf@ =~= overwritten(before, front@));
}

/// The vector's capacity, which is never under its length.
///
/// This is `Vec::capacity`: "the total number of elements the vector can hold without
/// reallocating". Nothing more is claimed of it, since how much an allocation rounds up is not
/// fixed.
#[verifier::external_body]
fn capacity(vec: &Vec<u8>) -> (res: usize)
    ensures
        res >= vec@.len(),
{
    vec.capacity()
}

/// `encode` can be asked to encode `event`, and every answer is one for the space that it is given:
/// if the space is too small, as much as is needed can be added to `len` bytes.
pub open spec fn encodes<S, F: Fn(&S, usize, usize, usize) -> (S, BufReply<u8>)>(
    encode: F,
    encoder: usize,
    event: usize,
    len: nat,
) -> bool {
    &&& forall|engine: &S, room: usize| #[trigger] encode.requires((engine, encoder, event, room))
    &&& forall|engine: &S, room: usize, answer: (S, BufReply<u8>)| #[trigger]
        encode.ensures((engine, encoder, event, room), answer) ==> answer.1.fits(room) && (
        answer.1.outcome() matches Err(Error::OutOfSpace { required }) ==> len + required
            <= isize::MAX)
}

/// What an encoding of `event` by `encoder` does to the bytes `before` and to the engine, if the
/// first answer of `encode` is `first`.
///
/// The bytes of a successful answer are appended. If the space was too small, the encoding is
/// asked for once more, with as much space as the first answer says is needed. If there is an
/// error, nothing is appended.
pub open spec fn appended<S, F: Fn(&S, usize, usize, usize) -> (S, BufReply<u8>)>(
    encode: F,
    encoder: usize,
    event: usize,
    first: (S, BufReply<u8>),
    before: Seq<u8>,
    after: Seq<u8>,
    engine: S,
    res: Result<()>,
) -> bool {
    match first.1.outcome() {
        Ok(_) => after == before + first.1.out@ && engine == first.0 && res == Ok::<(), Error>(()),
        Err(Error::OutOfSpace { required }) => exists|second: (S, BufReply<u8>)| #[trigger]
            encode.ensures((&first.0, encoder, event, required), second) && engine == second.0
                && match second.1.outcome() {
                Ok(_) => after == before + second.1.out@ && res == Ok::<(), Error>(()),
                Err(e) => after == before && res == Err::<(), Error>(e),
            },
        Err(e) => after == before && engine == first.0 && res == Err::<(), Error>(e),
    }
}

/// Encode `event` with `encoder` and append the bytes to `vec`, which grows as needed.
///
/// `encode` takes the engine, the encoder, the event and the space that there is for the bytes.
pub fn encode_to_vec<S, F: Fn(&S, usize, usize, usize) -> (S, BufReply<u8>)>(
    encoder: usize,
    event: usize,
    vec: &mut Vec<u8>,
    engine: &mut S,
    encode: F,
) -> (res: Result<()>)
    requires
        encodes(encode, encoder, event, old(vec)@.len()),
    ensures
        exists|room: usize, first: (S, BufReply<u8>)| #[trigger]
            encode.ensures((&*old(engine), encoder, event, room), first) && appended(
                encode,
                encoder,
                event,
                first,
                old(vec)@,
                final(vec)@,
                *final(engine),
                res,
            ),
{
    let room: usize = capacity(vec) - vec.len();
    let ghost start = *engine;
    let first = encode(&*engine, encoder, event, room);
    assert(encode.ensures((&start, encoder, event, room), first));
    let ghost first_answer = first;
    let (after_first, reply) = first;
    *engine = after_first;
    match reply.result() {
        Ok(_) => {
            vec.extend_from_slice(reply.out.as_slice());
            assert(vec@ =~= old(vec)@ + first_answer.1.out@);
            Ok(())
        },
        Err(Error::OutOfSpace { required }) => {
            // Retry with as much space as the encoding needs.
            vec.reserve(required);
            let second = encode(&*engine, encoder, event, required);
            assert(encode.ensures((&first_answer.0, encoder, event, required), second));
            let ghost second_answer = second;
            let (after_second, reply) = second;
            *engine = after_second;
            match reply.result() {
                Ok(_) => {
                    vec.extend_from_slice(reply.out.as_slice());
                    assert(vec@ =~= old(vec)@ + second_answer.1.out@);
                    Ok(())
                },
                Err(e) => Err(e),
            }
        },
        Err(e) => Err(e),
    }
}

/// An encoding only ever appends: what was there before stays in front, and an error leaves it as
/// it was.
pub proof fn encoding_keeps_the_front<S, F: Fn(&S, usize, usize, usize) -> (S, BufReply<u8>)>(
    encode: F,
    encoder: usize,
    event: usize,
    first: (S, BufReply<u8>),
    before: Seq<u8>,
    after: Seq<u8>,
    engine: S,
    res: Result<()>,
)
    requires
        appended(encode, encoder, event, first, before, after, engine, res),
    ensures
        before.is_prefix_of(after),
        res is Err ==> after == before,
{
}

/// As long as the engine is in one of `states`, the encoding of `event` by `encoder` comes to
/// `bytes`: it is written where there is space for it. Where there is not, the engine answers
/// `OutOfSpace` with its length, and nothing changes.
pub open spec fn encodes_as<S, F: Fn(&S, usize, usize, usize) -> (S, BufReply<u8>)>(
    encode: F,
    encoder: usize,
    event: usize,
    states: Set<S>,
    bytes: Seq<u8>,
) -> bool {
    forall|engine: &S, room: usize, answer: (S, BufReply<u8>)| #[trigger]
        encode.ensures((engine, encoder, event, room), answer) && states.contains(*engine) ==> {
            &&& answer.1.len == bytes.len()
            &&& if bytes.len() <= room {
                answer.1.code == abi::SUCCESS && answer.1.out@ == bytes
            } else {
                answer.1.code == abi::OUT_OF_SPACE && answer.1.out@.len() == 0 && states.contains(
                    answer.0,
                )
            }
        }
}

/// An encoder that answers `OutOfSpace` only where its bytes do not fit, and reports how many they
/// are, always gets its bytes into the vector.
pub proof fn a_fitting_retry_succeeds<S, F: Fn(&S, usize, usize, usize) -> (S, BufReply<u8>)>(
    encode: F,
    encoder: usize,
    event: usize,
    states: Set<S>,
    bytes: Seq<u8>,
    start: S,
    room: usize,
    first: (S, BufReply<u8>),
    before: Seq<u8>,
    after: Seq<u8>,
    engine: S,
    res: Result<()>,
)
    requires
        encodes_as(encode, encoder, event, states, bytes),
        states.contains(start),
        encode.ensures((&start, encoder, event, room), first),
        appended(encode, encoder, event, first, before, after, engine, res),
    ensures
        res is Ok,
        after == before + bytes,
{
}

/// What an encoding of `event` by `encoder` into a buffer comes to: the engine after it, the buffer
/// after it, and the result.
pub open spec fn written<S, F: FnOnce(&S, usize, usize, usize) -> (S, BufReply<u8>)>(
    encode: F,
    encoder: usize,
    event: usize,
    start: S,
    before: Seq<u8>,
    after: Seq<u8>,
    engine: S,
    res: Result<usize>,
) -> bool {
    exists|answer: (S, BufReply<u8>)|
        {
            &&& #[trigger] encode.ensures((&start, encoder, event, before.len() as usize), answer)
            &&& engine == answer.0
            &&& res == answer.1.outcome()
            &&& after == overwritten(before, answer.1.out@)
        }
}

/// Encode `event` with `encoder` into the buffer `buf`.
pub fn encode_to_buf<S, F: FnOnce(&S, usize, usize, usize) -> (S, BufReply<u8>)>(
    encoder: usize,
    event: usize,
    buf: &mut [u8],
    engine: &mut S,
    encode: F,
) -> (res: Result<usize>)
    requires
        writes(encode, encoder, event, *old(engine), old(buf)@.len() as usize),
    ensures
        written(
            encode,
            encoder,
            event,
            *old(engine),
            old(buf)@,
            final(buf)@,
            *final(engine),
            res,
        ),
{
    let room: usize = buf.len();
    let ghost start = *engine;
    let answer = encode(&*engine, encoder, event, room);
    assert(encode.ensures((&start, encoder, event, room), answer));
    let (after, reply) = answer;
    *engine = after;
    overwrite(buf, &reply.out);
    reply.result()
}

/// `encode` can be asked to encode `event` into a buffer of `room` bytes, and answers for it.
pub open spec fn writes<S, F: FnOnce(&S, usize, usize, usize) -> (S, BufReply<u8>)>(
    encode: F,
    encoder: usize,
    event: usize,
    engine: S,
    room: usize,
) -> bool {
    &&& encode.requires((&engine, encoder, event, room))
    &&& forall|answer: (S, BufReply<u8>)| #[trigger]
        encode.ensures((&engine, encoder, event, room), answer) ==> answer.1.fits(room)
}

/// A buffer that is too small is told how many bytes are needed, and one that holds as many then
/// gets the bytes: the size that was reported is enough, and is the length of what is written.
pub proof fn the_reported_size_is_enough<S, F: Fn(&S, usize, usize, usize) -> (S, BufReply<u8>)>(
    encode: F,
    encoder: usize,
    event: usize,
    states: Set<S>,
    bytes: Seq<u8>,
    start: S,
    small: Seq<u8>,
    small_after: Seq<u8>,
    between: S,
    required: usize,
    buf: Seq<u8>,
    buf_after: Seq<u8>,
    engine: S,
    res: Result<usize>,
)
    requires
        encodes_as(encode, encoder, event, states, bytes),
        states.contains(start),
        small.len() <= usize::MAX,
        required <= buf.len() <= usize::MAX,
        written(
            encode,
            encoder,
            event,
            start,
            small,
            small_after,
            between,
            Err(Error::OutOfSpace { required }),
        ),
        written(encode, encoder, event, between, buf, buf_after, engine, res),
    ensures
        required > small.len(),
        small_after == small,
        res == Ok::<usize, Error>(required),
        required == bytes.len(),
        buf_after.take(required as int) == bytes,
        buf_after.skip(required as int) == buf.skip(required as int),
{
    assert(small_after =~= small);
    assert(buf_after =~= overwritten(buf, bytes));
    assert(buf_after.take(required as int) =~= bytes);
    assert(buf_after.skip(required as int) =~= buf.skip(required as int));
}

/// Any answer but one of too little space is the end of it: the bytes are appended, or the error is
/// the result. Too little space is answered with exactly one more try, with as much as was asked for,
/// and what comes of that is the end of it.
pub proof fn there_is_one_retry_at_most<S, F: Fn(&S, usize, usize, usize) -> (S, BufReply<u8>)>(
    encode: F,
    encoder: usize,
    event: usize,
    first: (S, BufReply<u8>),
    before: Seq<u8>,
    after: Seq<u8>,
    engine: S,
    res: Result<()>,
)
    requires
        appended(encode, encoder, event, first, before, after, engine, res),
    ensures
        first.1.code == 0 ==> {
            &&& res is Ok
            &&& engine == first.0
            &&& after == before + first.1.out@
        },
        first.1.code != 0 && first.1.code != -3 ==> {
            &&& res is Err
            &&& first.1.outcome() == Err::<usize, Error>(res->Err_0)
            &&& engine == first.0
            &&& after == before
        },
        first.1.code == -3 ==> exists|second: (S, BufReply<u8>)|
            {
                &&& #[trigger] encode.ensures((&first.0, encoder, event, first.1.len), second)
                &&& engine == second.0
                &&& second.1.code == 0 ==> res is Ok && after == before + second.1.out@
                &&& second.1.code != 0 ==> {
                    &&& res is Err
                    &&& second.1.outcome() == Err::<usize, Error>(res->Err_0)
                    &&& after == before
                }
            },
{
}

/// Writing over a buffer replaces its front by what is written, and leaves its length and the rest
/// as they were.
pub proof fn only_the_front_is_overwritten<T>(buf: Seq<T>, front: Seq<T>, i: int)
    requires
        front.len() <= buf.len(),
        0 <= i < buf.len(),
    ensures
        overwritten(buf, front).len() == buf.len(),
        i < front.len() ==> overwritten(buf, front)[i] == front[i],
        i >= front.len() ==> overwritten(buf, front)[i] == buf[i],
{
}

} // verus!
