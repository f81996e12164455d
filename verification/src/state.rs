//! The timing state of one connection, and what each event of its handshake emits.

use std::sync::Arc;
use std::time::Instant;

use vstd::prelude::*;

use crate::checkpoint::{CheckpointView, TimingCheckpoint, TimingSubscriber};
use crate::clock::{read_since, saturating_timestamp};
use crate::handshake::HandshakeType;
use crate::names::{message_name, NEGOTIATE_END, NEGOTIATE_START};
use crate::outbox::{Outbox, Receiver};
use crate::role::{Role, Side};

verus! {

/// State carrying the subscriber and per-connection epoch.
pub struct TimingState<S: Receiver + ?Sized = dyn TimingSubscriber> {
    /// The registered subscriber, and the account of what it was sent.
    outbox: Outbox<S>,
    /// Per-connection monotonic epoch, set when NEGOTIATE_START is emitted.
    epoch: Option<Instant>,
    /// True once NEGOTIATE_START has been emitted (latch).
    started: bool,
    /// True once NEGOTIATE_END has been emitted (guards against double-end).
    ended: bool,
}

/// How far a connection's negotiation has come.
pub struct Progress {
    pub epoch: Option<Instant>,
    pub started: bool,
    pub ended: bool,
}

impl Progress {
    /// Nothing has been emitted.
    pub open spec fn initial() -> Progress {
        Progress { epoch: None, started: false, ended: false }
    }

    /// The epoch is there exactly when NEGOTIATE_START has been emitted, and NEGOTIATE_END
    /// comes only after that.
    pub open spec fn wf(self) -> bool {
        &&& self.started <==> self.epoch is Some
        &&& self.ended ==> self.started
    }
}

/// Something that happens to a connection.
#[derive(Clone, Copy, Debug)]
pub enum TimingEvent {
    /// Negotiation starts, at `now`.
    Start { now: Instant },
    /// A handshake message is processed, `elapsed_ns` after the epoch.
    Message { ty: HandshakeType, elapsed_ns: u64 },
    /// Negotiation completes, `elapsed_ns` after the epoch.
    End { elapsed_ns: u64 },
}

impl TimingEvent {
    /// Whether a connection that has come as far as `progress` emits a checkpoint on this event:
    /// each anchor once, and nothing before NEGOTIATE_START.
    pub open spec fn emits(self, progress: Progress) -> bool {
        match self {
            TimingEvent::Start { .. } => !progress.started,
            TimingEvent::Message { .. } => progress.started,
            TimingEvent::End { .. } => progress.started && !progress.ended,
        }
    }

    /// The elapsed time that this event carries. NEGOTIATE_START carries none: it sets the epoch.
    pub open spec fn elapsed(self) -> Option<u64> {
        match self {
            TimingEvent::Start { .. } => None,
            TimingEvent::Message { elapsed_ns, .. } => Some(elapsed_ns),
            TimingEvent::End { elapsed_ns } => Some(elapsed_ns),
        }
    }

    /// The checkpoint that stands for this event on `side`.
    pub open spec fn checkpoint(self, side: Side) -> CheckpointView {
        let (name, timestamp_ns) = match self {
            TimingEvent::Start { .. } => (NEGOTIATE_START@, 0),
            TimingEvent::Message { ty, elapsed_ns } => (crate::names::name_of(ty, side), elapsed_ns),
            TimingEvent::End { elapsed_ns } => (NEGOTIATE_END@, elapsed_ns),
        };
        CheckpointView { name, role: Role::of(side), timestamp_ns }
    }

    /// How far a connection has come after this event.
    pub open spec fn after(self, progress: Progress) -> Progress {
        if !self.emits(progress) {
            progress
        } else {
            match self {
                TimingEvent::Start { now } => Progress {
                    epoch: Some(now),
                    started: true,
                    ..progress
                },
                TimingEvent::Message { .. } => progress,
                TimingEvent::End { .. } => Progress { ended: true, ..progress },
            }
        }
    }
}

/// `checkpoint` was handed to `subscriber`, which returned.
pub open spec fn delivered<S: Receiver + ?Sized>(
    subscriber: Arc<S>,
    checkpoint: TimingCheckpoint,
) -> bool {
    subscriber.has_received(checkpoint)
}

/// A checkpoint was delivered exactly where the subscriber's own method was called on it.
pub proof fn law_delivery_is_a_call_of_the_subscriber<S: TimingSubscriber + ?Sized>(
    subscriber: Arc<S>,
    checkpoint: TimingCheckpoint,
)
    ensures
        delivered(subscriber, checkpoint) <==> call_ensures(
            S::on_timing_checkpoint,
            (&*subscriber, &checkpoint),
            (),
        ),
{
}

/// `timestamp_ns` is the timestamp of a measurement of the clock from `epoch`.
pub open spec fn measured_from(epoch: Instant, timestamp_ns: u64) -> bool {
    exists|nanos: u128| #[trigger]
        crate::clock::is_reading_since(epoch, nanos) && timestamp_ns
            == crate::clock::timestamp_of(Some(nanos))
}

/// A measured timestamp is a reading of the clock from the epoch, whole: the count itself where
/// it fits, and the greatest timestamp where it does not.
pub proof fn law_measured_timestamp_is_the_whole_reading(epoch: Instant, timestamp_ns: u64)
    requires
        measured_from(epoch, timestamp_ns),
    ensures
        exists|nanos: u128| #[trigger]
            crate::clock::is_reading_since(epoch, nanos) && timestamp_ns == (if nanos <= u64::MAX {
                nanos as int
            } else {
                u64::MAX as int
            }),
{
}

/// Timestamps grow with the readings that they are measured by: of two readings, the later one
/// is stamped with no less than the earlier one, and by exactly as much more as it is later,
/// where both fit.
pub proof fn law_later_reading_is_stamped_later(epoch: Instant, earlier: u128, later: u128)
    requires
        crate::clock::is_reading_since(epoch, earlier),
        crate::clock::is_reading_since(epoch, later),
        earlier <= later,
    ensures
        measured_from(epoch, crate::clock::timestamp_of(Some(earlier))),
        measured_from(epoch, crate::clock::timestamp_of(Some(later))),
        crate::clock::timestamp_of(Some(earlier)) <= crate::clock::timestamp_of(Some(later)),
        later <= u64::MAX ==> crate::clock::timestamp_of(Some(later))
            - crate::clock::timestamp_of(Some(earlier)) == later - earlier,
{
}

/// The checkpoint of an event that carries an elapsed time is stamped with exactly that time.
pub proof fn law_checkpoint_is_stamped_with_the_elapsed_time(
    side: Side,
    ty: HandshakeType,
    elapsed_ns: u64,
)
    ensures
        (TimingEvent::Message { ty, elapsed_ns }).elapsed() == Some(elapsed_ns),
        (TimingEvent::Message { ty, elapsed_ns }).checkpoint(side).timestamp_ns == elapsed_ns,
        (TimingEvent::End { elapsed_ns }).elapsed() == Some(elapsed_ns),
        (TimingEvent::End { elapsed_ns }).checkpoint(side).timestamp_ns == elapsed_ns,
{
}

impl<S: Receiver + ?Sized> View for TimingState<S> {
    type V = Progress;

    closed spec fn view(&self) -> Progress {
        Progress { epoch: self.epoch, started: self.started, ended: self.ended }
    }
}

impl<S: Receiver + ?Sized> TimingState<S> {
    /// The subscriber that this state emits to.
    pub closed spec fn registered(&self) -> Arc<S> {
        self.outbox.registered()
    }

    /// The checkpoints that the subscriber has received from this state, in order.
    pub closed spec fn received(&self) -> Seq<CheckpointView> {
        self.outbox.sent()
    }

    /// Create a new `TimingState` from the given subscriber.
    pub fn new(subscriber: Arc<S>) -> (state: Self)
        ensures
            state.registered() == subscriber,
            state@ == Progress::initial(),
            state.received() == Seq::<CheckpointView>::empty(),
            state@.wf(),
    {
        TimingState { outbox: Outbox::new(subscriber), epoch: None, started: false, ended: false }
    }

    /// Elapsed nanoseconds since the epoch, using saturating arithmetic; zero while there is no
    /// epoch.
    ///
    /// With an epoch, the clock is measured from that epoch, and the result is the timestamp of
    /// the measurement. Which of its possible values the clock gives depends on when the call is
    /// made.
    pub fn elapsed_ns_now(&self) -> (ns: u64)
        ensures
            self@.epoch is None ==> ns == 0,
            self@.epoch matches Some(epoch) ==> measured_from(epoch, ns),
            self@.epoch matches Some(epoch) ==> exists|nanos: u128| #[trigger]
                crate::clock::is_reading_since(epoch, nanos) && (nanos <= u64::MAX ==> ns == nanos)
                    && (nanos > u64::MAX ==> ns == u64::MAX),
    {
        let since_epoch: Option<u128> = match &self.epoch {
            Some(epoch) => Some(read_since(epoch)),
            None => None,
        };
        saturating_timestamp(since_epoch)
    }

    /// Access the subscriber for emitting checkpoints.
    pub fn subscriber(&self) -> (subscriber: &S)
        ensures
            subscriber == &*self.registered(),
    {
        self.outbox.subscriber()
    }

    /// Record that `event` happened on `side`: hand its checkpoint to the subscriber, if it
    /// emits one, and return what was handed over.
    ///
    /// The subscriber receives the returned checkpoint once, and nothing where none is returned.
    pub fn emit(&mut self, side: Side, event: TimingEvent) -> (emitted: Option<TimingCheckpoint>)
        ensures
            emitted is Some <==> event.emits(old(self)@),
            emitted matches Some(checkpoint) ==> checkpoint@ == event.checkpoint(side),
            emitted matches Some(checkpoint) ==> delivered(old(self).registered(), checkpoint),
            final(self)@ == event.after(old(self)@),
            emitted matches Some(checkpoint) ==> final(self).received() == old(
                self,
            ).received().push(checkpoint@),
            emitted is None ==> final(self).received() == old(self).received(),
            final(self).registered() == old(self).registered(),
            old(self)@.wf() ==> final(self)@.wf(),
    {
        let (name, timestamp_ns): (&'static str, u64) = match event {
            TimingEvent::Start { now } => {
                if self.started {
                    return None;
                }
                self.epoch = Some(now);
                self.started = true;
                (NEGOTIATE_START, 0)
            },
            TimingEvent::Message { ty, elapsed_ns } => {
                if !self.started {
                    return None;
                }
                (message_name(ty, side), elapsed_ns)
            },
            TimingEvent::End { elapsed_ns } => {
                if !self.started || self.ended {
                    return None;
                }
                self.ended = true;
                (NEGOTIATE_END, elapsed_ns)
            },
        };
        let checkpoint = TimingCheckpoint {
            name: name.to_owned(),
            role: Role::from(side),
            timestamp_ns,
        };
        self.outbox.send(&checkpoint);
        Some(checkpoint)
    }

    /// Emit the checkpoint of a handshake message that is processed now: its timestamp is the
    /// elapsed time since the epoch.
    pub fn emit_message_now(&mut self, side: Side, ty: HandshakeType) -> (emitted: Option<
        TimingCheckpoint,
    >)
        ensures
            emitted is Some <==> old(self)@.started,
            emitted matches Some(checkpoint) ==> {
                &&& checkpoint@.name == crate::names::name_of(ty, side)
                &&& checkpoint@.role == Role::of(side)
                &&& old(self)@.epoch is None ==> checkpoint@.timestamp_ns == 0
                &&& old(self)@.epoch matches Some(epoch) ==> measured_from(
                    epoch,
                    checkpoint@.timestamp_ns,
                )
                &&& delivered(old(self).registered(), checkpoint)
            },
            final(self)@ == old(self)@,
            emitted matches Some(checkpoint) ==> final(self).received() == old(
                self,
            ).received().push(checkpoint@),
            emitted is None ==> final(self).received() == old(self).received(),
            final(self).registered() == old(self).registered(),
    {
        let elapsed_ns: u64 = self.elapsed_ns_now();
        self.emit(side, TimingEvent::Message { ty, elapsed_ns })
    }

    /// Emit NEGOTIATE_END for a negotiation that completes now: its timestamp is the elapsed
    /// time since the epoch.
    pub fn emit_end_now(&mut self, side: Side) -> (emitted: Option<TimingCheckpoint>)
        ensures
            emitted is Some <==> old(self)@.started && !old(self)@.ended,
            emitted matches Some(checkpoint) ==> {
                &&& checkpoint@.name == NEGOTIATE_END@
                &&& checkpoint@.role == Role::of(side)
                &&& old(self)@.epoch is None ==> checkpoint@.timestamp_ns == 0
                &&& old(self)@.epoch matches Some(epoch) ==> measured_from(
                    epoch,
                    checkpoint@.timestamp_ns,
                )
                &&& delivered(old(self).registered(), checkpoint)
            },
            final(self)@ == (Progress {
                ended: old(self)@.ended || old(self)@.started,
                ..old(self)@
            }),
            emitted matches Some(checkpoint) ==> final(self).received() == old(
                self,
            ).received().push(checkpoint@),
            emitted is None ==> final(self).received() == old(self).received(),
            final(self).registered() == old(self).registered(),
            old(self)@.wf() ==> final(self)@.wf(),
    {
        let elapsed_ns: u64 = self.elapsed_ns_now();
        self.emit(side, TimingEvent::End { elapsed_ns })
    }
}

} // verus!
