//! Answers of the terminal engine, and calls that ask it one thing.
//!
//! The engine lives behind a C interface. An operation of this library takes the call that it
//! makes as a function value, hands it the object's address and what is asked, and turns the
//! answer into a value or an [`Error`](crate::Error).
use crate::error::{from_optional_result, from_result, optional_outcome, outcome, Result};
use vstd::prelude::*;

verus! {

/// The answer to a query: a result code, and the value that counts if the code says success.
#[derive(Debug)]
pub struct Reply<T> {
    /// The result code.
    pub code: i32,
    /// The value; meaningless unless the call succeeded.
    pub value: T,
}

impl<T> Reply<T> {
    /// What the answer comes to.
    pub open spec fn outcome(self) -> Result<T> {
        match outcome(self.code) {
            Ok(_) => Ok(self.value),
            Err(e) => Err(e),
        }
    }

    /// What the answer comes to when the value may be absent.
    pub open spec fn optional_outcome(self) -> Result<Option<T>> {
        optional_outcome(self.code, self.value)
    }

    /// Turn the answer into a [`Result`].
    pub fn into_result(self) -> (res: Result<T>)
        ensures
            res == self.outcome(),
    {
        match from_result(self.code) {
            Ok(_) => Ok(self.value),
            Err(e) => Err(e),
        }
    }

    /// Turn the answer into a [`Result`], where the value may be absent.
    pub fn into_optional(self) -> (res: Result<Option<T>>)
        ensures
            res == self.optional_outcome(),
    {
        from_optional_result(self.code, self.value)
    }
}

/// `res` is what some answer to `call(object, tag)` comes to.
pub open spec fn answered<O, G, T, F: FnOnce(O, G) -> Reply<T>>(
    call: F,
    object: O,
    tag: G,
    res: Result<T>,
) -> bool {
    exists|reply: Reply<T>| #[trigger]
        call.ensures((object, tag), reply) && res == reply.outcome()
}

/// `res` is what some answer to `call(object, tag)` comes to, where the value may be absent.
pub open spec fn answered_optional<O, G, T, F: FnOnce(O, G) -> Reply<T>>(
    call: F,
    object: O,
    tag: G,
    res: Result<Option<T>>,
) -> bool {
    exists|reply: Reply<T>| #[trigger]
        call.ensures((object, tag), reply) && res == reply.optional_outcome()
}

/// `res` is what some answer to `call(object, tag, value)` comes to.
pub open spec fn accepted<O, G, T, F: FnOnce(O, G, T) -> i32>(
    call: F,
    object: O,
    tag: G,
    value: T,
    res: Result<()>,
) -> bool {
    exists|code: i32| #[trigger]
        call.ensures((object, tag, value), code) && res == outcome(code)
}

/// Ask `call` for `tag` of `object`.
pub fn get<O, G, T, F: FnOnce(O, G) -> Reply<T>>(object: O, tag: G, call: F) -> (res: Result<T>)
    requires
        call.requires((object, tag)),
    ensures
        answered(call, object, tag, res),
{
    call(object, tag).into_result()
}

/// Ask `call` for `tag` of `object`, which may be absent.
pub fn get_optional<O, G, T, F: FnOnce(O, G) -> Reply<T>>(
    object: O,
    tag: G,
    call: F,
) -> (res: Result<Option<T>>)
    requires
        call.requires((object, tag)),
    ensures
        answered_optional(call, object, tag, res),
{
    call(object, tag).into_optional()
}

/// Have `call` set `tag` of `object` to `value`.
pub fn put<O, G, T, F: FnOnce(O, G, T) -> i32>(
    object: O,
    tag: G,
    value: T,
    call: F,
) -> (res: Result<()>)
    requires
        call.requires((object, tag, value)),
    ensures
        accepted(call, object, tag, value, res),
{
    from_result(call(object, tag, value))
}

/// `res` is what some answer to `call(object, tag, value)` comes to, and the engine goes from
/// `before` to `after`.
pub open spec fn changed<S, O, G, T, F: FnOnce(&S, O, G, T) -> (S, i32)>(
    call: F,
    object: O,
    tag: G,
    value: T,
    before: S,
    after: S,
    res: Result<()>,
) -> bool {
    exists|code: i32| #[trigger]
        call.ensures((&before, object, tag, value), (after, code)) && res == outcome(code)
}

/// Have `call` set `tag` of `object` to `value` in the engine.
pub fn put_in<S, O, G, T, F: FnOnce(&S, O, G, T) -> (S, i32)>(
    object: O,
    tag: G,
    value: T,
    engine: &mut S,
    call: F,
) -> (res: Result<()>)
    requires
        call.requires((&*old(engine), object, tag, value)),
    ensures
        changed(call, object, tag, value, *old(engine), *final(engine), res),
{
    let (after, code) = call(&*engine, object, tag, value);
    *engine = after;
    from_result(code)
}

/// An answer comes to its value, unchanged, exactly on success, and else to the error of its code;
/// where the value may be absent, it comes to none exactly if the engine says that there is none.
pub proof fn answers_come_to_their_value<T>(reply: Reply<T>)
    ensures
        reply.code == 0 ==> reply.outcome() == Ok::<T, crate::Error>(reply.value),
        reply.code != 0 ==> reply.outcome() is Err && outcome(reply.code) == Err::<
            (),
            crate::Error,
        >(reply.outcome()->Err_0),
        reply.code == 0 ==> reply.optional_outcome() == Ok::<Option<T>, crate::Error>(
            Some(reply.value),
        ),
        reply.optional_outcome() == Ok::<Option<T>, crate::Error>(None) <==> reply.code == -4,
        reply.code != 0 && reply.code != -4 ==> reply.optional_outcome() is Err,
{
}

} // verus!
