//! The one way by which a connection's checkpoints reach its subscriber.
//!
//! A connection holds its subscriber in an [`Outbox`], which keeps account of what it sends.
//! Nothing outside this module can hand a checkpoint to the subscriber of an outbox without
//! that account: a [`Receiver`] takes a checkpoint only together with a [`Permit`], and only
//! this module can make one.

use std::sync::Arc;

use vstd::prelude::*;

use crate::checkpoint::{CheckpointView, TimingCheckpoint, TimingSubscriber};

verus! {

/// Leave to hand over one checkpoint.
pub struct Permit(());

/// What an outbox can send to: any [`TimingSubscriber`].
pub trait Receiver: Send + Sync {
    /// `checkpoint` was handed to this receiver, which returned. As subscribers promise nothing,
    /// this is known of a checkpoint only by handing it over.
    spec fn has_received(&self, checkpoint: TimingCheckpoint) -> bool;

    /// Take one checkpoint.
    fn receive(&self, checkpoint: &TimingCheckpoint, permit: Permit)
        ensures
            self.has_received(*checkpoint),
    ;
}

impl<S: TimingSubscriber + ?Sized> Receiver for S {
    open spec fn has_received(&self, checkpoint: TimingCheckpoint) -> bool {
        call_ensures(S::on_timing_checkpoint, (self, &checkpoint), ())
    }

    fn receive(&self, checkpoint: &TimingCheckpoint, permit: Permit) {
        self.on_timing_checkpoint(checkpoint);
    }
}

/// A subscriber has received a checkpoint exactly where its own method was called on it.
pub proof fn law_receipt_is_a_call_of_the_subscriber<S: TimingSubscriber + ?Sized>(
    subscriber: &S,
    checkpoint: TimingCheckpoint,
)
    ensures
        subscriber.has_received(checkpoint) <==> call_ensures(
            S::on_timing_checkpoint,
            (subscriber, &checkpoint),
            (),
        ),
{
}

/// A subscriber and the account of what it was sent.
pub struct Outbox<S: Receiver + ?Sized> {
    subscriber: Arc<S>,
    sent: Ghost<Seq<CheckpointView>>,
}

impl<S: Receiver + ?Sized> Outbox<S> {
    /// The subscriber that this outbox sends to.
    pub closed spec fn registered(&self) -> Arc<S> {
        self.subscriber
    }

    /// The checkpoints that this outbox has sent, in order.
    pub closed spec fn sent(&self) -> Seq<CheckpointView> {
        self.sent@
    }

    /// An outbox that has sent nothing.
    pub fn new(subscriber: Arc<S>) -> (outbox: Self)
        ensures
            outbox.registered() == subscriber,
            outbox.sent() == Seq::<CheckpointView>::empty(),
    {
        Outbox { subscriber, sent: Ghost(Seq::empty()) }
    }

    /// The subscriber of this outbox.
    pub fn subscriber(&self) -> (subscriber: &S)
        ensures
            subscriber == &*self.registered(),
    {
        &*self.subscriber
    }

    /// Hand `checkpoint` to the subscriber, and account for it.
    ///
    /// The account is kept beside the call: that one entry stands for one call is so by this body
    /// and that of [`Receiver::receive`], as no clause can count the calls of a method.
    pub fn send(&mut self, checkpoint: &TimingCheckpoint)
        ensures
            old(self).registered().has_received(*checkpoint),
            final(self).registered() == old(self).registered(),
            final(self).sent() == old(self).sent().push(checkpoint@),
    {
        self.subscriber.receive(checkpoint, Permit(()));
        self.sent = Ghost(self.sent@.push(checkpoint@));
    }
}

} // verus!
