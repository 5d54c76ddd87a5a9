use vstd::prelude::*;

verus! {

/// Why a connection attempt produced no stream.
#[derive(Debug)]
pub enum ConnectError<E> {
    /// The connect deadline passed before the inner connector finished.
    TimedOut,
    /// The inner connector failed; its error is passed on unchanged.
    Inner(E),
}

impl<E> ConnectError<E> {
    /// Whether this error reports an expired deadline.
    pub fn is_timeout(&self) -> (r: bool)
        ensures
            r == (*self is TimedOut),
    {
        match self {
            ConnectError::TimedOut => true,
            ConnectError::Inner(_) => false,
        }
    }
}

} // verus!
