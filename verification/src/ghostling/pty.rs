//! Talking to the child behind the pseudo-terminal.
//!
//! Reading, writing, forking and waiting are the driver's work. The functions here decide what
//! follows from what came of it.
use vstd::prelude::*;

verus! {

//---------------------------------------
// Reading
//---------------------------------------

/// Why reading from the child ended.
#[derive(Clone, Copy, Debug, PartialEq, Eq, Structural)]
pub enum PtyError {
    /// The child's side is closed.
    EndOfStream,
    /// Another error, by its number.
    OtherError(i32),
}

/// What came of a read from the pty.
#[derive(Clone, Copy, Debug, PartialEq, Eq, Structural)]
pub enum ReadOutcome {
    /// So many bytes were read.
    Bytes(usize),
    /// There is no data right now (`EAGAIN`).
    Again,
    /// The read was interrupted (`EINTR`).
    Interrupted,
    /// An input/output error (`EIO`).
    Io,
    /// Another error, by its number.
    Other(i32),
}

/// What follows from a read.
#[derive(Clone, Copy, Debug, PartialEq, Eq, Structural)]
pub enum ReadStep {
    /// Feed so many bytes to the terminal, and read again.
    Feed(usize),
    /// Read again.
    Retry,
    /// There is nothing more to read in this frame.
    Drained,
    /// Reading ended.
    Ended(PtyError),
}

/// What follows from a read.
///
/// No bytes at all mean that the child closed its side. On Linux that often shows as an
/// input/output error, which counts as the same.
pub open spec fn after_read(outcome: ReadOutcome) -> ReadStep {
    match outcome {
        ReadOutcome::Bytes(len) => if len == 0 {
            ReadStep::Ended(PtyError::EndOfStream)
        } else {
            ReadStep::Feed(len)
        },
        ReadOutcome::Again => ReadStep::Drained,
        ReadOutcome::Interrupted => ReadStep::Retry,
        ReadOutcome::Io => ReadStep::Ended(PtyError::EndOfStream),
        ReadOutcome::Other(errno) => ReadStep::Ended(PtyError::OtherError(errno)),
    }
}

/// Decide what follows from a read.
pub fn read_step(outcome: ReadOutcome) -> (res: ReadStep)
    ensures
        res == after_read(outcome),
{
    match outcome {
        ReadOutcome::Bytes(0) => ReadStep::Ended(PtyError::EndOfStream),
        ReadOutcome::Bytes(len) => ReadStep::Feed(len),
        ReadOutcome::Again => ReadStep::Drained,
        ReadOutcome::Interrupted => ReadStep::Retry,
        ReadOutcome::Io => ReadStep::Ended(PtyError::EndOfStream),
        ReadOutcome::Other(errno) => ReadStep::Ended(PtyError::OtherError(errno)),
    }
}

/// Bytes that were read are fed to the terminal, all of them. Reading ends exactly when the child
/// closed its side, which no bytes or an input/output error say, or on another error, which is the
/// one that it ends with. Else it goes on, at once after an interruption, and in the next frame when
/// there is no data.
pub proof fn reading_goes_on_until_the_end(outcome: ReadOutcome, len: usize, errno: i32)
    ensures
        after_read(outcome) == ReadStep::Feed(len) <==> len > 0 && outcome == ReadOutcome::Bytes(
            len,
        ),
        after_read(outcome) == ReadStep::Ended(PtyError::EndOfStream) <==> outcome
            == ReadOutcome::Bytes(0) || outcome is Io,
        after_read(outcome) == ReadStep::Ended(PtyError::OtherError(errno)) <==> outcome
            == ReadOutcome::Other(errno),
        after_read(outcome) is Retry <==> outcome is Interrupted,
        after_read(outcome) is Drained <==> outcome is Again,
{
}

//---------------------------------------
// Writing
//---------------------------------------

/// What came of a write to the pty.
#[derive(Clone, Copy, Debug, PartialEq, Eq, Structural)]
pub enum WriteOutcome {
    /// So many bytes were written.
    Wrote(usize),
    /// The write was interrupted (`EINTR`).
    Interrupted,
    /// The kernel's buffer is full, or there was an error.
    Failed,
}

/// Data on its way to the child.
///
/// The write is best effort: it goes on after a partial or interrupted write, and drops what is
/// left when the kernel's buffer is full or there is an error.
#[derive(Debug)]
pub struct PendingWrite<'d> {
    data: &'d [u8],
    written: usize,
    dropped: bool,
}

impl<'d> PendingWrite<'d> {
    #[verifier::type_invariant]
    spec fn wf(self) -> bool {
        self.written <= self.data@.len()
    }

    /// All of the data.
    pub closed spec fn data(&self) -> Seq<u8> {
        self.data@
    }

    /// How many bytes were written.
    pub closed spec fn count(&self) -> nat {
        self.written as nat
    }

    /// The rest was dropped.
    pub closed spec fn is_dropped(&self) -> bool {
        self.dropped
    }

    /// What is left to write.
    pub open spec fn rest(&self) -> Seq<u8> {
        self.data().skip(self.count() as int)
    }

    /// The data has to be written still, at least in part.
    pub open spec fn is_pending(&self) -> bool {
        !self.is_dropped() && self.count() < self.data().len()
    }

    /// Data of which nothing was written yet.
    pub fn new(data: &'d [u8]) -> (res: Self)
        ensures
            res.data() == data@,
            res.count() == 0,
            !res.is_dropped(),
    {
        PendingWrite { data, written: 0, dropped: false }
    }

    /// What to write next, if anything.
    pub fn next_chunk(&self) -> (res: Option<&'d [u8]>)
        ensures
            self.count() <= self.data().len(),
            match res {
                Some(chunk) => self.is_pending() && chunk@ == self.rest(),
                None => !self.is_pending(),
            },
    {
        proof {
            use_type_invariant(self);
        }
        if self.dropped || self.written == self.data.len() {
            None
        } else {
            let (_, rest) = self.data.split_at(self.written);
            assert(rest@ =~= self.rest());
            Some(rest)
        }
    }

    /// Take what came of a write of the next chunk.
    pub fn advance(&mut self, outcome: WriteOutcome)
        requires
            old(self).is_pending(),
            outcome matches WriteOutcome::Wrote(len) ==> len <= old(self).rest().len(),
        ensures
            final(self).data() == old(self).data(),
            final(self).count() == match outcome {
                WriteOutcome::Wrote(len) => old(self).count() + len,
                _ => old(self).count() as int,
            },
            final(self).is_dropped() == (outcome is Failed),
    {
        proof {
            use_type_invariant(&*self);
        }
        let ghost total: usize = self.data.len();
        match outcome {
            WriteOutcome::Wrote(len) => {
                assert(self.written + len <= total);
                self.written = self.written + len;
            },
            WriteOutcome::Interrupted => {},
            WriteOutcome::Failed => {
                self.dropped = true;
            },
        }
    }
}

/// What was written and what is left make up the data, so nothing is written twice and nothing is
/// left out before the rest is dropped.
pub proof fn written_and_rest_make_the_data(data: Seq<u8>, count: nat, len: nat)
    requires
        count + len <= data.len(),
    ensures
        data.take(count as int) + data.skip(count as int) == data,
        data.take(count as int) + data.skip(count as int).take(len as int) == data.take(
            (count + len) as int,
        ),
        data.skip(count as int).skip(len as int) == data.skip((count + len) as int),
{
    assert(data.take(count as int) + data.skip(count as int) =~= data);
    assert(data.take(count as int) + data.skip(count as int).take(len as int) =~= data.take(
        (count + len) as int,
    ));
    assert(data.skip(count as int).skip(len as int) =~= data.skip((count + len) as int));
}

//---------------------------------------
// The child
//---------------------------------------

/// The child process within a pseudo-terminal.
///
/// The child is active at first. It is exited once its side of the pty is closed. It is reaped once
/// it has exited fully and was waited for, and `W` says how it ended.
#[derive(Debug, PartialEq, Eq)]
pub enum Child<W> {
    /// The process with the given ID is running.
    Active(i32),
    /// The process with the given ID closed its side.
    Exited(i32),
    /// The process is gone, and ended so.
    Reaped(W),
}

/// What to do with the child when the program ends.
#[derive(Clone, Copy, Debug, PartialEq, Eq, Structural)]
pub enum Farewell {
    /// Ask the process to exit, and wait for it.
    HangUpAndWait(i32),
    /// Wait for the process.
    Wait(i32),
    /// Nothing.
    Nothing,
}

impl<W> Child<W> {
    /// How far the child's life has come.
    pub open spec fn age(self) -> int {
        match self {
            Child::Active(_) => 0,
            Child::Exited(_) => 1,
            Child::Reaped(_) => 2,
        }
    }

    /// The child after reading from it for a frame: it is exited if reading ended.
    pub open spec fn after_frame(self, ended: Option<PtyError>) -> Child<W> {
        match (self, ended) {
            (Child::Active(pid), Some(_)) => Child::Exited(pid),
            _ => self,
        }
    }

    /// The child after waiting for it without blocking: `status` is how it ended, if it has.
    pub open spec fn after_wait(self, status: Option<W>) -> Child<W> {
        match (self, status) {
            (Child::Exited(_), Some(status)) => Child::Reaped(status),
            _ => self,
        }
    }

    /// Take what came of reading from the child for a frame.
    pub fn read_frame(&mut self, ended: Option<PtyError>)
        ensures
            *final(self) == old(self).after_frame(ended),
    {
        if let Child::Active(pid) = *self {
            if ended.is_some() {
                *self = Child::Exited(pid);
            }
        }
    }

    /// Take what came of waiting for the child: how it ended, and nothing if it has not, or if
    /// waiting failed.
    pub fn wait_frame(&mut self, status: Option<W>)
        ensures
            *final(self) == old(self).after_wait(status),
    {
        if let Child::Exited(_) = *self {
            if let Some(status) = status {
                *self = Child::Reaped(status);
            }
        }
    }

    /// Whether the program quits after a frame that starts with the child like this: once the child
    /// is no longer active.
    pub fn quits(&self) -> (res: bool)
        ensures
            res == (*self !is Active),
    {
        match self {
            Child::Active(_) => false,
            _ => true,
        }
    }

    /// How the child ended, once it is reaped: what a frame reports.
    pub fn status(&self) -> (res: Option<&W>)
        ensures
            match *self {
                Child::Reaped(status) => res == Some(&status),
                _ => res is None,
            },
    {
        match self {
            Child::Reaped(status) => Some(status),
            _ => None,
        }
    }

    /// Whether input is forwarded to the child and its output is read: only while it is active.
    pub fn is_active(&self) -> (res: bool)
        ensures
            res == (*self is Active),
    {
        match self {
            Child::Active(_) => true,
            _ => false,
        }
    }

    /// The process to wait for in a frame, if any.
    pub fn to_reap(&self) -> (res: Option<i32>)
        ensures
            res == match *self {
                Child::Exited(pid) => Some(pid),
                _ => None,
            },
    {
        match self {
            Child::Exited(pid) => Some(*pid),
            _ => None,
        }
    }

    /// What to do with the child when the program ends.
    ///
    /// A child that is still running is asked to exit. Whatever is not reaped yet is waited for, so
    /// that no zombie is left.
    pub fn farewell(&self) -> (res: Farewell)
        ensures
            res == match *self {
                Child::Active(pid) => Farewell::HangUpAndWait(pid),
                Child::Exited(pid) => Farewell::Wait(pid),
                Child::Reaped(_) => Farewell::Nothing,
            },
    {
        match self {
            Child::Active(pid) => Farewell::HangUpAndWait(*pid),
            Child::Exited(pid) => Farewell::Wait(*pid),
            Child::Reaped(_) => Farewell::Nothing,
        }
    }
}

/// A child never comes back: it goes from active to exited to reaped, one at a time.
pub proof fn a_child_only_gets_older<W>(
    child: Child<W>,
    ended: Option<PtyError>,
    status: Option<W>,
)
    ensures
        child.age() <= child.after_frame(ended).age() <= child.age() + 1,
        child.age() <= child.after_wait(status).age() <= child.age() + 1,
        child is Reaped ==> child.after_frame(ended) == child && child.after_wait(status) == child,
        child.after_wait(status) != child ==> status is Some,
{
}

/// A child exits when reading from it ended and not before, and is reaped when it was waited for and
/// not before, with the status that came of it; it keeps its process until then.
pub proof fn a_child_goes_its_way<W>(
    child: Child<W>,
    pid: i32,
    ended: Option<PtyError>,
    status: Option<W>,
)
    ensures
        child == Child::<W>::Active(pid) ==> {
            &&& ended is None ==> child.after_frame(ended) == child
            &&& ended is Some ==> child.after_frame(ended) == Child::<W>::Exited(pid)
            &&& child.after_wait(status) == child
        },
        child == Child::<W>::Exited(pid) ==> {
            &&& child.after_frame(ended) == child
            &&& status is None ==> child.after_wait(status) == child
            &&& status matches Some(how) ==> child.after_wait(status) == Child::Reaped(how)
        },
{
}

//---------------------------------------
// Starting the child
//---------------------------------------

/// The shell to start: the one that the environment names, unless that is empty, else the one of
/// the user's account, and else the fallback.
pub fn choose_shell<P>(
    named: Option<P>,
    is_empty: impl FnOnce(&P) -> bool,
    account: impl FnOnce() -> Option<P>,
    fallback: P,
) -> (res: P)
    requires
        named matches Some(shell) ==> is_empty.requires((&shell,)),
        account.requires(()),
    ensures
        match named {
            Some(shell) => is_empty.ensures((&shell,), false) && res == shell || is_empty.ensures(
                (&shell,),
                true,
            ) && account_shell(account, fallback, res),
            None => account_shell(account, fallback, res),
        },
{
    if let Some(shell) = named {
        if !is_empty(&shell) {
            return shell;
        }
    }
    match account() {
        Some(shell) => shell,
        None => fallback,
    }
}

/// `res` is the shell of the user's account, or the fallback if there is none.
pub open spec fn account_shell<P, A: FnOnce() -> Option<P>>(account: A, fallback: P, res: P) -> bool {
    exists|shell: Option<P>| #[trigger]
        account.ensures((), shell) && res == match shell {
            Some(shell) => shell,
            None => fallback,
        }
}

/// The status flags of the pty with the one added that keeps reads and writes from blocking.
pub fn without_blocking(flags: i32, nonblock: i32) -> (res: i32)
    ensures
        res == flags | nonblock,
{
    flags | nonblock
}

/// Adding the flag keeps every flag that was set, and adding it again changes nothing.
pub proof fn the_flag_is_only_added(flags: i32, nonblock: i32)
    ensures
        (flags | nonblock) & flags == flags,
        (flags | nonblock) & nonblock == nonblock,
        (flags | nonblock) | nonblock == flags | nonblock,
{
    assert((flags | nonblock) & flags == flags && (flags | nonblock) & nonblock == nonblock && (
    flags | nonblock) | nonblock == flags | nonblock) by (bit_vector);
}

} // verus!
