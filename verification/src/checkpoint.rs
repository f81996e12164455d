//! Checkpoints and the subscribers that receive them.

use std::sync::Arc;

use vstd::prelude::*;

use crate::role::Role;

verus! {

/// A single timing checkpoint, structurally identical to the s2n-tls record.
///
/// Exactly three fields, matching s2n-tls (`name`, `role`, `timestamp_ns`).
#[derive(Clone, Debug)]
pub struct TimingCheckpoint {
    /// Message or anchor name, UPPER_SNAKE_CASE (e.g. `CLIENT_HELLO`, `NEGOTIATE_START`).
    /// Always non-empty.
    pub name: String,
    /// Emitting connection's role.
    pub role: Role,
    /// Elapsed nanoseconds since this connection's NEGOTIATE_START epoch. The NEGOTIATE_START
    /// checkpoint itself has `timestamp_ns == 0`.
    pub timestamp_ns: u64,
}

/// What a checkpoint says.
#[verifier::ext_equal]
pub struct CheckpointView {
    pub name: Seq<char>,
    pub role: Role,
    pub timestamp_ns: u64,
}

impl View for TimingCheckpoint {
    type V = CheckpointView;

    open spec fn view(&self) -> CheckpointView {
        CheckpointView { name: self.name@, role: self.role, timestamp_ns: self.timestamp_ns }
    }
}

/// Consumer-supplied observer that receives each emitted checkpoint.
///
/// Invoked synchronously on the handshake-processing thread, once per checkpoint, in emission
/// order.
pub trait TimingSubscriber: Send + Sync {
    /// Receive one checkpoint by shared reference.
    fn on_timing_checkpoint(&self, checkpoint: &TimingCheckpoint);
}

/// A place for an optional subscriber, which can be cloned and described without the subscriber
/// being either.
#[derive(Clone)]
pub struct TimingSubscriberSlot(pub Option<Arc<dyn TimingSubscriber>>);

impl TimingSubscriberSlot {
    /// How a slot is described.
    pub open spec fn description(self) -> Seq<char> {
        match self.0 {
            Some(_) => "<timing subscriber>"@,
            None => "None"@,
        }
    }

    /// A description of this slot for debugging. It says whether a subscriber is there, and
    /// nothing of the subscriber itself.
    pub fn debug_description(&self) -> (text: String)
        ensures
            text@ == self.description(),
    {
        match &self.0 {
            Some(_) => "<timing subscriber>".to_owned(),
            None => "None".to_owned(),
        }
    }
}

} // verus!
