use std::time::Duration;
use vstd::prelude::*;

verus! {

/// A duplex byte stream together with the read and write deadlines that
/// govern each read attempt and each write attempt on it.
///
/// The two deadlines are independent: changing one never touches the other,
/// and neither touches the wrapped stream.
#[derive(Debug)]
pub struct TimeoutConnectorStream<S> {
    stream: S,
    read_timeout: Option<Duration>,
    write_timeout: Option<Duration>,
}

impl<S> TimeoutConnectorStream<S> {
    /// The wrapped stream.
    pub closed spec fn inner_spec(&self) -> S {
        self.stream
    }

    /// The deadline of each read attempt; `None` means no deadline.
    pub closed spec fn read_timeout_spec(&self) -> Option<Duration> {
        self.read_timeout
    }

    /// The deadline of each write attempt; `None` means no deadline.
    pub closed spec fn write_timeout_spec(&self) -> Option<Duration> {
        self.write_timeout
    }

    /// This value wraps `stream` with exactly these deadlines.
    pub open spec fn is_configured(
        &self,
        stream: S,
        read_timeout: Option<Duration>,
        write_timeout: Option<Duration>,
    ) -> bool {
        &&& self.inner_spec() == stream
        &&& self.read_timeout_spec() == read_timeout
        &&& self.write_timeout_spec() == write_timeout
    }

    /// Wraps `stream`; there is initially no read or write deadline.
    pub fn new(stream: S) -> (r: Self)
        ensures
            r.is_configured(stream, None, None),
    {
        TimeoutConnectorStream { stream, read_timeout: None, write_timeout: None }
    }

    /// Returns the current read deadline.
    pub fn read_timeout(&self) -> (r: Option<Duration>)
        ensures
            r == self.read_timeout_spec(),
    {
        self.read_timeout
    }

    /// Sets the read deadline; it governs the next read attempt.
    pub fn set_read_timeout(&mut self, timeout: Option<Duration>)
        ensures
            final(self).is_configured(old(self).inner_spec(), timeout, old(self).write_timeout_spec()),
    {
        self.read_timeout = timeout;
    }

    /// Returns the current write deadline.
    pub fn write_timeout(&self) -> (r: Option<Duration>)
        ensures
            r == self.write_timeout_spec(),
    {
        self.write_timeout
    }

    /// Sets the write deadline; it governs the next write attempt.
    pub fn set_write_timeout(&mut self, timeout: Option<Duration>)
        ensures
            final(self).is_configured(old(self).inner_spec(), old(self).read_timeout_spec(), timeout),
    {
        self.write_timeout = timeout;
    }

    /// Returns a shared reference to the wrapped stream.
    pub fn get_ref(&self) -> (r: &S)
        ensures
            *r == self.inner_spec(),
    {
        &self.stream
    }

    /// Returns a mutable reference to the wrapped stream; the deadlines stay
    /// as they are.
    pub fn get_mut(&mut self) -> (r: &mut S)
        ensures
            *r == old(self).inner_spec(),
            final(self).is_configured(
                *final(r),
                old(self).read_timeout_spec(),
                old(self).write_timeout_spec(),
            ),
    {
        &mut self.stream
    }

    /// Consumes the wrapper, returning the wrapped stream.
    pub fn into_inner(self) -> (r: S)
        ensures
            r == self.inner_spec(),
    {
        self.stream
    }
}

} // verus!
