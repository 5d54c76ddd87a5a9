use std::time::Duration;
use vstd::prelude::*;

use crate::error::ConnectError;
use crate::stream::TimeoutConnectorStream;
use crate::Progress;

verus! {

/// The deadlines that one connection attempt runs under, taken from a
/// `TimeoutConnector` when the attempt starts. `None` means no deadline.
#[derive(Clone, Copy, Debug)]
pub struct ConnectPlan {
    /// Bound on establishing the connection.
    pub connect_timeout: Option<Duration>,
    /// Read deadline given to the resulting stream.
    pub read_timeout: Option<Duration>,
    /// Write deadline given to the resulting stream.
    pub write_timeout: Option<Duration>,
}

impl ConnectPlan {
    /// No deadline of any kind.
    pub open spec fn unbounded() -> ConnectPlan {
        ConnectPlan { connect_timeout: None, read_timeout: None, write_timeout: None }
    }

    /// This plan with the connect deadline replaced.
    pub open spec fn with_connect_timeout(self, t: Option<Duration>) -> ConnectPlan {
        ConnectPlan { connect_timeout: t, ..self }
    }

    /// This plan with the read deadline replaced.
    pub open spec fn with_read_timeout(self, t: Option<Duration>) -> ConnectPlan {
        ConnectPlan { read_timeout: t, ..self }
    }

    /// This plan with the write deadline replaced.
    pub open spec fn with_write_timeout(self, t: Option<Duration>) -> ConnectPlan {
        ConnectPlan { write_timeout: t, ..self }
    }

    /// `r` is what one poll of an attempt under this plan yields, given what
    /// the inner connect yielded (`connecting`) and whether the connect timer
    /// has fired.
    ///
    /// A finished inner connect decides the outcome whether or not the timer
    /// fired: success is wrapped with this plan's read and write deadlines,
    /// failure is passed on as `Inner`. Only while the inner connect is still
    /// pending, and only when there is a connect deadline, does a fired timer
    /// end the attempt with `TimedOut`.
    pub open spec fn connects_as<S, E>(
        self,
        connecting: Progress<Result<S, E>>,
        timer_fired: bool,
        r: Progress<Result<TimeoutConnectorStream<S>, ConnectError<E>>>,
    ) -> bool {
        match connecting {
            Progress::Ready(Ok(s)) => match r {
                Progress::Ready(Ok(st)) => st.is_configured(s, self.read_timeout, self.write_timeout),
                _ => false,
            },
            Progress::Ready(Err(e)) => r == Progress::<Result<TimeoutConnectorStream<S>, ConnectError<E>>>::Ready(
                Err(ConnectError::Inner(e)),
            ),
            Progress::Pending => if self.connect_timeout is Some && timer_fired {
                r == Progress::<Result<TimeoutConnectorStream<S>, ConnectError<E>>>::Ready(
                    Err(ConnectError::TimedOut),
                )
            } else {
                r is Pending
            },
        }
    }

    /// Decides one poll of a connection attempt under this plan.
    ///
    /// `connecting` is what polling the inner connect yielded; `timer_fired`
    /// is whether the connect timer has fired (always `false` when there is
    /// no connect deadline, as no timer is then started). On success the raw
    /// stream is wrapped with this plan's read and write deadlines.
    pub fn poll_connect<S, E>(&self, connecting: Progress<Result<S, E>>, timer_fired: bool) -> (r:
        Progress<Result<TimeoutConnectorStream<S>, ConnectError<E>>>)
        ensures
            self.connects_as(connecting, timer_fired, r),
    {
        match connecting {
            Progress::Ready(Ok(io)) => {
                let mut tm = TimeoutConnectorStream::new(io);
                tm.set_read_timeout(self.read_timeout);
                tm.set_write_timeout(self.write_timeout);
                Progress::Ready(Ok(tm))
            },
            Progress::Ready(Err(e)) => Progress::Ready(Err(ConnectError::Inner(e))),
            Progress::Pending => {
                if self.connect_timeout.is_some() && timer_fired {
                    Progress::Ready(Err(ConnectError::TimedOut))
                } else {
                    Progress::Pending
                }
            },
        }
    }
}

/// A connector decorated with optional connect, read and write deadlines.
///
/// The three deadlines are independent, and all start out absent.
#[derive(Clone, Debug)]
pub struct TimeoutConnector<T> {
    connector: T,
    connect_timeout: Option<Duration>,
    read_timeout: Option<Duration>,
    write_timeout: Option<Duration>,
}

impl<T> TimeoutConnector<T> {
    /// The decorated connector.
    pub closed spec fn connector_spec(&self) -> T {
        self.connector
    }

    /// The deadlines currently configured.
    pub closed spec fn timeouts(&self) -> ConnectPlan {
        ConnectPlan {
            connect_timeout: self.connect_timeout,
            read_timeout: self.read_timeout,
            write_timeout: self.write_timeout,
        }
    }

    /// Decorates `connector`, with no deadline of any kind.
    pub fn new(connector: T) -> (r: Self)
        ensures
            r.connector_spec() == connector,
            r.timeouts() == ConnectPlan::unbounded(),
    {
        TimeoutConnector {
            connector: connector,
            connect_timeout: None,
            read_timeout: None,
            write_timeout: None,
        }
    }

    /// Sets the bound on establishing a connection. `None` means no bound.
    pub fn set_connect_timeout(&mut self, val: Option<Duration>)
        ensures
            final(self).timeouts() == old(self).timeouts().with_connect_timeout(val),
            final(self).connector_spec() == old(self).connector_spec(),
    {
        self.connect_timeout = val;
    }

    /// Sets the read deadline of the streams produced from now on.
    pub fn set_read_timeout(&mut self, val: Option<Duration>)
        ensures
            final(self).timeouts() == old(self).timeouts().with_read_timeout(val),
            final(self).connector_spec() == old(self).connector_spec(),
    {
        self.read_timeout = val;
    }

    /// Sets the write deadline of the streams produced from now on.
    pub fn set_write_timeout(&mut self, val: Option<Duration>)
        ensures
            final(self).timeouts() == old(self).timeouts().with_write_timeout(val),
            final(self).connector_spec() == old(self).connector_spec(),
    {
        self.write_timeout = val;
    }

    /// A snapshot of the deadlines, taken at the start of a connection
    /// attempt; later changes to this connector do not affect it.
    pub fn plan(&self) -> (r: ConnectPlan)
        ensures
            r == self.timeouts(),
    {
        ConnectPlan {
            connect_timeout: self.connect_timeout,
            read_timeout: self.read_timeout,
            write_timeout: self.write_timeout,
        }
    }

    /// Returns a mutable reference to the decorated connector, through which
    /// readiness is probed and connect operations are started; the deadlines
    /// stay as they are.
    pub fn get_mut(&mut self) -> (r: &mut T)
        ensures
            *r == old(self).connector_spec(),
            final(self).connector_spec() == *final(r),
            final(self).timeouts() == old(self).timeouts(),
    {
        &mut self.connector
    }
}

/// Decides what a readiness probe of the decorator reports, from what the
/// inner connector's probe reported: readiness and pending are passed on
/// as they are, and an inner error is passed on as `Inner`. No deadline
/// applies to probing.
pub fn poll_ready_from<E>(probe: Progress<Result<(), E>>) -> (r: Progress<Result<(), ConnectError<E>>>)
    ensures
        match probe {
            Progress::Ready(Ok(())) => r == Progress::<Result<(), ConnectError<E>>>::Ready(Ok(())),
            Progress::Ready(Err(e)) => r == Progress::<Result<(), ConnectError<E>>>::Ready(
                Err(ConnectError::Inner(e)),
            ),
            Progress::Pending => r is Pending,
        },
{
    match probe {
        Progress::Ready(Ok(())) => Progress::Ready(Ok(())),
        Progress::Ready(Err(e)) => Progress::Ready(Err(ConnectError::Inner(e))),
        Progress::Pending => Progress::Pending,
    }
}

} // verus!
