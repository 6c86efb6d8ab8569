//! The SDK client that feeds a live render.
use vstd::prelude::*;

verus! {

/// Lifecycle of the SDK producer feeding a listen-mode render.
#[derive(Clone, Copy, Debug, PartialEq, Eq, Structural)]
pub enum ProducerStatus {
    /// No SDK client has connected yet.
    NeverConnected,
    /// At least one SDK client is currently connected.
    Connected,
    /// At least one SDK client connected earlier; none is connected now.
    Disconnected,
}

impl ProducerStatus {
    /// The lifecycle that a server's counters tell of: how many write clients are connected now,
    /// and how many ever were.
    pub fn from_client_counts(connected: u64, ever: u64) -> (status: ProducerStatus)
        ensures
            status == ProducerStatus::Connected <==> connected > 0,
            status == ProducerStatus::Disconnected <==> connected == 0 && ever > 0,
            status == ProducerStatus::NeverConnected <==> connected == 0 && ever == 0,
    {
        if connected > 0 {
            ProducerStatus::Connected
        } else if ever > 0 {
            ProducerStatus::Disconnected
        } else {
            ProducerStatus::NeverConnected
        }
    }
}

/// A producer is connected as long as any client is, gone once there was one and none is left, and has
/// never connected before the first one.
pub proof fn the_counters_tell_the_status(connected: u64, ever: u64, status: ProducerStatus)
    requires
        call_ensures(ProducerStatus::from_client_counts, (connected, ever), status),
    ensures
        connected > 0 ==> status == ProducerStatus::Connected,
        connected == 0 && ever > 0 ==> status == ProducerStatus::Disconnected,
        connected == 0 && ever == 0 ==> status == ProducerStatus::NeverConnected,
{
}

} // verus!
