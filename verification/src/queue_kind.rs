//! Queue kinds.
//!
//! The reactor's event queue uses different queues to group events by
//! priority and polls them in a round-robin manner. This way, events compete
//! for time only within one queue, and non-congested queues can always assume
//! to be speedily processed.

use vstd::prelude::*;

verus! {

/// Scheduling priority.
///
/// Priorities are ordered from lowest to highest.
#[derive(Copy, Clone, Debug, Eq, PartialEq, Structural, Hash)]
pub enum QueueKind {
    /// Network events that were initiated outside of this node.
    ///
    /// Their load may vary and grouping them together in one queue aides
    /// denial-of-service protection.
    NetworkIncoming,
    /// Network events that were initiated by the local node, such as outgoing
    /// messages.
    Network,
    /// Events of unspecified priority.
    ///
    /// This is the default queue.
    Regular,
    /// Reporting events on the local node.
    ///
    /// Metric events take precedence over most other events since missing a
    /// request for metrics might cause the requester to assume that the node
    /// is down and forcefully restart it.
    Api,
}

impl Default for QueueKind {
    fn default() -> (r: QueueKind)
        ensures
            r == QueueKind::Regular,
    {
        QueueKind::Regular
    }
}

impl QueueKind {
    /// Returns the weight of a specific queue: how many events are at most
    /// processed from it during each event processing round. Always positive.
    pub fn weight(self) -> (r: usize)
        ensures
            r == match self {
                QueueKind::NetworkIncoming => 4usize,
                QueueKind::Network => 4usize,
                QueueKind::Regular => 8usize,
                QueueKind::Api => 16usize,
            },
            r >= 1,
    {
        match self {
            QueueKind::NetworkIncoming => 4,
            QueueKind::Network => 4,
            QueueKind::Regular => 8,
            QueueKind::Api => 16,
        }
    }

    /// Returns the weights of all queue kinds.
    pub fn weights() -> (r: Vec<(QueueKind, usize)>)
        ensures
            r@.len() == 4,
            r@[0] == (QueueKind::NetworkIncoming, 4usize),
            r@[1] == (QueueKind::Network, 4usize),
            r@[2] == (QueueKind::Regular, 8usize),
            r@[3] == (QueueKind::Api, 16usize),
    {
        let mut out: Vec<(QueueKind, usize)> = Vec::new();
        out.push((QueueKind::NetworkIncoming, QueueKind::NetworkIncoming.weight()));
        out.push((QueueKind::Network, QueueKind::Network.weight()));
        out.push((QueueKind::Regular, QueueKind::Regular.weight()));
        out.push((QueueKind::Api, QueueKind::Api.weight()));
        out
    }

    /// The name under which this queue reports its metrics.
    pub fn metrics_name(&self) -> (r: &'static str)
        ensures
            r@ == match self {
                QueueKind::NetworkIncoming => "network_incoming"@,
                QueueKind::Network => "network"@,
                QueueKind::Regular => "regular"@,
                QueueKind::Api => "api"@,
            },
    {
        match self {
            QueueKind::NetworkIncoming => "network_incoming",
            QueueKind::Network => "network",
            QueueKind::Regular => "regular",
            QueueKind::Api => "api",
        }
    }
}

} // verus!
