//! The error values that the simplified client interface reports.

use vstd::prelude::*;

verus! {

/// An error reported by the simplified client interface.
///
/// Every failure is surfaced synchronously at the call site; nothing is
/// retried or suppressed.
#[derive(Clone, Copy, Debug, PartialEq, Eq, Structural)]
pub enum MqttError {
    /// The caller passed a quality-of-service level outside `{0, 1, 2}`.
    /// The offending value is carried along.
    InvalidQos(u8),
    /// The underlying client refused the request: the bounded outgoing
    /// queue was full, its receiving end was gone, or the topic was
    /// rejected. The request was not enqueued.
    RequestFailed,
}

} // verus!
