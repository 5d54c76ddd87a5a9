//! Connect, read and write deadlines for asynchronous network clients.
//!
//! `TimeoutConnector` decorates a connector with three independent optional
//! deadlines. Each connection attempt takes a snapshot of them (a
//! `ConnectPlan`), races the inner connect against the connect deadline with
//! completion preferred on a tie, and wraps the resulting stream in a
//! `TimeoutConnectorStream` that carries the read and write deadlines.
use vstd::prelude::*;

pub mod connector;
pub mod error;
pub mod laws;
pub mod stream;

pub use connector::{ConnectPlan, TimeoutConnector};
pub use error::ConnectError;
pub use stream::TimeoutConnectorStream;

verus! {

/// Outcome of one non-blocking attempt to advance a pending operation.
#[derive(Debug)]
pub enum Progress<R> {
    /// The operation finished with this value.
    Ready(R),
    /// The operation has not finished yet.
    Pending,
}

} // verus!
