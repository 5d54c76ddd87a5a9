use std::time::Duration;
use vstd::prelude::*;

use crate::connector::ConnectPlan;
use crate::error::ConnectError;
use crate::stream::TimeoutConnectorStream;
use crate::Progress;

verus! {

/// Once the connect timer has fired while the inner connect is still
/// pending, an attempt with a connect deadline ends with `TimedOut` and
/// hands out no stream.
pub proof fn lemma_deadline_ends_pending_attempt<S, E>(
    plan: ConnectPlan,
    r: Progress<Result<TimeoutConnectorStream<S>, ConnectError<E>>>,
)
    requires
        plan.connect_timeout is Some,
        plan.connects_as(Progress::<Result<S, E>>::Pending, true, r),
    ensures
        r == Progress::<Result<TimeoutConnectorStream<S>, ConnectError<E>>>::Ready(
            Err(ConnectError::TimedOut),
        ),
        !(r matches Progress::Ready(Ok(_))),
{
}

/// Without a connect deadline nothing but the inner connector decides an
/// attempt: it stays pending exactly as long as the inner connect does, it
/// never times out, whatever a timer reports, and it succeeds whenever the
/// inner connect does.
pub proof fn lemma_no_deadline_no_bound<S, E>(
    plan: ConnectPlan,
    connecting: Progress<Result<S, E>>,
    timer_fired: bool,
    r: Progress<Result<TimeoutConnectorStream<S>, ConnectError<E>>>,
)
    requires
        plan.connect_timeout is None,
        plan.connects_as(connecting, timer_fired, r),
    ensures
        plan.connects_as(connecting, false, r),
        (r is Pending) == (connecting is Pending),
        !(r matches Progress::Ready(Err(ConnectError::TimedOut))),
        connecting matches Progress::Ready(Ok(s)) ==> (r matches Progress::Ready(Ok(st))
            && st.inner_spec() == s),
{
}

/// When the inner connect has finished, the outcome is the same whether or
/// not the connect timer fired in the same poll: completion wins the tie,
/// and the attempt never reports `TimedOut`.
pub proof fn lemma_completion_wins_tie<S, E>(
    plan: ConnectPlan,
    completed: Result<S, E>,
    r: Progress<Result<TimeoutConnectorStream<S>, ConnectError<E>>>,
)
    requires
        plan.connects_as(Progress::Ready(completed), true, r),
    ensures
        plan.connects_as(Progress::Ready(completed), false, r),
        r is Ready,
        !(r matches Progress::Ready(Err(ConnectError::TimedOut))),
        completed is Ok ==> r matches Progress::Ready(Ok(_)),
{
}

/// The read and write deadlines are independent: replacing one of them in a
/// plan leaves the other, and the connect deadline, as they were, and a
/// stream produced under the new plan carries the replaced deadline together
/// with the untouched one.
pub proof fn lemma_deadlines_independent<S, E>(
    plan: ConnectPlan,
    t: Option<Duration>,
    s: S,
    timer_fired: bool,
    r: Progress<Result<TimeoutConnectorStream<S>, ConnectError<E>>>,
    w: Progress<Result<TimeoutConnectorStream<S>, ConnectError<E>>>,
)
    requires
        plan.with_read_timeout(t).connects_as(Progress::<Result<S, E>>::Ready(Ok(s)), timer_fired, r),
        plan.with_write_timeout(t).connects_as(Progress::<Result<S, E>>::Ready(Ok(s)), timer_fired, w),
    ensures
        plan.with_read_timeout(t).write_timeout == plan.write_timeout,
        plan.with_read_timeout(t).connect_timeout == plan.connect_timeout,
        plan.with_write_timeout(t).read_timeout == plan.read_timeout,
        plan.with_write_timeout(t).connect_timeout == plan.connect_timeout,
        r matches Progress::Ready(Ok(st)) && st.is_configured(s, t, plan.write_timeout),
        w matches Progress::Ready(Ok(st)) && st.is_configured(s, plan.read_timeout, t),
{
}

} // verus!
