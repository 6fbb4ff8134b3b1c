//! Encoding focus gained/lost events into terminal escape sequences (CSI I / CSI O) for focus
//! reporting mode (mode 1004).
use crate::error::{Error, Result};
use vstd::prelude::*;

verus! {

/// Event type for focus reporting mode (mode 1004).
#[derive(Clone, Copy, Debug, PartialEq, Eq, Structural)]
pub enum Event {
    /// Terminal window gained focus.
    Gained,
    /// Terminal window lost focus.
    Lost,
}

/// How many bytes a focus report has.
pub const REPORT_LEN: usize = 3;

impl Event {
    /// The report of this event: `CSI I` for focus gained, `CSI O` for focus lost.
    pub open spec fn report(self) -> Seq<u8> {
        match self {
            Event::Gained => seq![0x1bu8, 0x5b, 0x49],
            Event::Lost => seq![0x1bu8, 0x5b, 0x4f],
        }
    }

    /// The number that stands for this event in the engine's interface.
    pub open spec fn spec_code(self) -> u32 {
        match self {
            Event::Gained => 0,
            Event::Lost => 1,
        }
    }

    /// The number that stands for this event in the engine's interface.
    pub fn code(self) -> (res: u32)
        ensures
            res == self.spec_code(),
    {
        match self {
            Event::Gained => 0,
            Event::Lost => 1,
        }
    }

    /// Encode a focus event into a terminal escape sequence.
    ///
    /// Writes the report to the front of the buffer and returns its length. If the buffer is too
    /// small, returns `OutOfSpace` with the size that is needed and leaves the buffer alone.
    pub fn encode(self, buf: &mut [u8]) -> (res: Result<usize>)
        ensures
            if old(buf)@.len() < self.report().len() {
                &&& res == Err::<usize, Error>(
                    Error::OutOfSpace { required: self.report().len() as usize },
                )
                &&& final(buf)@ == old(buf)@
            } else {
                &&& res == Ok::<usize, Error>(self.report().len() as usize)
                &&& final(buf)@ == self.report() + old(buf)@.skip(self.report().len() as int)
            },
    {
        if buf.len() < REPORT_LEN {
            return Err(Error::OutOfSpace { required: REPORT_LEN });
        }
        buf[0] = 0x1b;
        buf[1] = 0x5b;
        buf[2] = match self {
            Event::Gained => 0x49,
            Event::Lost => 0x4f,
        };
        assert(buf@ =~= self.report() + old(buf)@.skip(3));
        Ok(REPORT_LEN)
    }
}

/// The two events have different reports of the same length.
pub proof fn reports_differ(a: Event, b: Event)
    ensures
        a.report() == b.report() <==> a == b,
        a.report().len() == REPORT_LEN,
{
    assert(a.report()[2] == b.report()[2] ==> a == b);
}

/// The event that the engine knows by the number `code`.
pub open spec fn event_of(code: u32) -> Event {
    if code == 0 {
        Event::Gained
    } else {
        Event::Lost
    }
}

/// Encode the focus event that the engine knows by the number `event`.
pub fn focus_encode(event: u32, buf: &mut [u8]) -> (res: Result<usize>)
    requires
        event <= 1,
    ensures
        event_of(event).spec_code() == event,
        if old(buf)@.len() < event_of(event).report().len() {
            &&& res == Err::<usize, Error>(
                Error::OutOfSpace { required: event_of(event).report().len() as usize },
            )
            &&& final(buf)@ == old(buf)@
        } else {
            &&& res == Ok::<usize, Error>(event_of(event).report().len() as usize)
            &&& final(buf)@ == event_of(event).report() + old(buf)@.skip(
                event_of(event).report().len() as int,
            )
        },
{
    if event == 0 {
        Event::Gained.encode(buf)
    } else {
        Event::Lost.encode(buf)
    }
}

/// A report is an escape, an opening bracket, and a letter: an I for focus gained and an O for focus
/// lost. The engine knows focus gained as zero and focus lost as one.
pub proof fn reports_are_escape_sequences(event: Event, code: u32)
    ensures
        event.report().len() == 3,
        event.report()[0] == 0x1b,
        event.report()[1] == '[' as u8,
        event is Gained ==> event.report()[2] == 'I' as u8,
        event is Lost ==> event.report()[2] == 'O' as u8,
        event.spec_code() == 0 <==> event is Gained,
        event.spec_code() == 1 <==> event is Lost,
        code <= 1 ==> event_of(code).spec_code() == code,
{
}

} // verus!
