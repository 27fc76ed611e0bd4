//! A reader paired with a stop signal. Why reading stops is abstracted into
//! the signal: once it has fired, a read ends as at the end of input, so that
//! no task stays pinned to an idle file.

use vstd::prelude::*;

verus! {

/// A reader together with the signal that ends its reads.
pub struct ReadUntil<S, F> {
    pub reader: S,
    pub until: F,
}

/// What one poll of a paired reader does.
#[derive(Clone, Copy, Debug, PartialEq, Eq, Structural)]
pub enum PollStep {
    /// The stop signal has fired: report the end of input, reading nothing.
    EndOfInput,
    /// The stop signal is pending: poll the reader.
    PollReader,
}

/// Decides one poll from whether the stop signal has fired. The signal is
/// looked at first, so a reader with bytes at hand still stops.
pub fn poll_read(stop_fired: bool) -> (step: PollStep)
    ensures
        step == if stop_fired {
            PollStep::EndOfInput
        } else {
            PollStep::PollReader
        },
{
    if stop_fired {
        PollStep::EndOfInput
    } else {
        PollStep::PollReader
    }
}

impl<S, F> ReadUntil<S, F> {
    /// Pairs a reader with a stop signal.
    pub fn new(reader: S, until: F) -> (r: Self)
        ensures
            r.reader == reader,
            r.until == until,
    {
        ReadUntil { reader, until }
    }

    /// The reader.
    pub fn get_ref(&self) -> (r: &S)
        ensures
            *r == self.reader,
    {
        &self.reader
    }

    /// The reader, for changing it; the stop signal stays as it is.
    pub fn get_mut(&mut self) -> (r: &mut S)
        ensures
            *r == old(self).reader,
            *final(self) == (ReadUntil { reader: *final(r), until: old(self).until }),
    {
        &mut self.reader
    }

    /// Takes the pair apart.
    pub fn into_parts(self) -> (parts: (S, F))
        ensures
            parts.0 == self.reader,
            parts.1 == self.until,
    {
        (self.reader, self.until)
    }
}

/// Readers that can be paired with a stop signal.
pub trait AsyncReadExt: Sized {
    /// Pairs this reader with a stop signal.
    fn read_until_future<F>(self, until: F) -> (r: ReadUntil<Self, F>)
        ensures
            r.reader == self,
            r.until == until,
    {
        ReadUntil { reader: self, until }
    }
}

impl<S> AsyncReadExt for S {

}

} // verus!
