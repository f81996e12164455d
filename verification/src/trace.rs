//! What holds of all the checkpoints of one connection.
//!
//! A connection is a sequence of events on one side. [`progress_after`] says how far it has come
//! and [`emitted_by`] which checkpoints it has emitted, in order.

use std::time::Instant;

use vstd::prelude::*;

use crate::checkpoint::CheckpointView;
use crate::handshake::HandshakeType;
use crate::names::{NEGOTIATE_END, NEGOTIATE_START};
use crate::role::{Role, Side};
use crate::state::{Progress, TimingEvent};

verus! {

/// How far a connection has come after `events`.
pub open spec fn progress_after(events: Seq<TimingEvent>) -> Progress
    decreases events.len(),
{
    if events.len() == 0 {
        Progress::initial()
    } else {
        events.last().after(progress_after(events.drop_last()))
    }
}

/// The checkpoints that a connection on `side` has emitted after `events`.
pub open spec fn emitted_by(side: Side, events: Seq<TimingEvent>) -> Seq<CheckpointView>
    decreases events.len(),
{
    if events.len() == 0 {
        Seq::empty()
    } else {
        let earlier = emitted_by(side, events.drop_last());
        if events.last().emits(progress_after(events.drop_last())) {
            earlier.push(events.last().checkpoint(side))
        } else {
            earlier
        }
    }
}

/// The checkpoint is that of a handshake message.
pub open spec fn is_message(checkpoint: CheckpointView, side: Side) -> bool {
    exists|ty| checkpoint.name == #[trigger] crate::names::name_of(ty, side)
}

/// The negotiation has started, and completed after that.
pub open spec fn completed(events: Seq<TimingEvent>) -> bool {
    exists|i: int, j: int|
        0 <= i < j < events.len() && #[trigger] events[i] is Start && #[trigger] events[j] is End
}

/// How many handshake messages are among the events.
pub open spec fn message_count(events: Seq<TimingEvent>) -> nat
    decreases events.len(),
{
    if events.len() == 0 {
        0
    } else {
        message_count(events.drop_last()) + if events.last() is Message {
            1nat
        } else {
            0nat
        }
    }
}

/// The elapsed times that the events carry never go back, as those of a monotonic clock do not.
pub open spec fn elapsed_in_order(events: Seq<TimingEvent>) -> bool {
    forall|i: int, j: int|
        0 <= i < j < events.len() ==> {
            (#[trigger] events[i]).elapsed() matches Some(a) ==> (
            #[trigger] events[j]).elapsed() matches Some(b) ==> a <= b
        }
}

/// One more event adds its checkpoint to those of the earlier ones, if it emits one, and
/// changes none of them.
pub proof fn law_event_extends_the_trace(
    side: Side,
    events: Seq<TimingEvent>,
    event: TimingEvent,
)
    ensures
        progress_after(events.push(event)) == event.after(progress_after(events)),
        emitted_by(side, events.push(event)) == if event.emits(progress_after(events)) {
            emitted_by(side, events).push(event.checkpoint(side))
        } else {
            emitted_by(side, events)
        },
{
    assert(events.push(event).drop_last() =~= events);
}

/// What has been emitted is kept, whatever happens later.
pub proof fn law_emitted_checkpoints_are_kept(
    side: Side,
    events: Seq<TimingEvent>,
    more: Seq<TimingEvent>,
)
    ensures
        emitted_by(side, events).is_prefix_of(emitted_by(side, events + more)),
    decreases more.len(),
{
    if more.len() == 0 {
        assert(events + more =~= events);
    } else {
        law_emitted_checkpoints_are_kept(side, events, more.drop_last());
        law_event_extends_the_trace(side, events + more.drop_last(), more.last());
        assert((events + more.drop_last()).push(more.last()) =~= events + more);
    }
}

/// In every state of a connection, the epoch is there exactly when NEGOTIATE_START has been
/// emitted, and NEGOTIATE_END has been emitted only after that.
pub proof fn law_progress_is_well_formed(events: Seq<TimingEvent>)
    ensures
        progress_after(events).wf(),
    decreases events.len(),
{
    if events.len() > 0 {
        law_progress_is_well_formed(events.drop_last());
    }
}

/// Every checkpoint of a connection carries the role of the connection's side.
pub proof fn law_role_is_constant(side: Side, events: Seq<TimingEvent>, i: int)
    requires
        0 <= i < emitted_by(side, events).len(),
    ensures
        emitted_by(side, events)[i].role == Role::of(side),
    decreases events.len(),
{
    let earlier = emitted_by(side, events.drop_last());
    if i < earlier.len() {
        law_role_is_constant(side, events.drop_last(), i);
    }
}

/// Every checkpoint of a connection has a non-empty UPPER_SNAKE_CASE name.
pub proof fn law_every_checkpoint_is_named(side: Side, events: Seq<TimingEvent>, i: int)
    requires
        0 <= i < emitted_by(side, events).len(),
    ensures
        crate::names::is_upper_snake(emitted_by(side, events)[i].name),
    decreases events.len(),
{
    let earlier = emitted_by(side, events.drop_last());
    if i < earlier.len() {
        law_every_checkpoint_is_named(side, events.drop_last(), i);
    } else {
        crate::names::law_anchors_are_upper_snake();
        if let TimingEvent::Message { ty, .. } = events.last() {
            crate::names::law_every_name_is_upper_snake(ty, side);
        }
    }
}

/// A connection emits something exactly when its negotiation has started. NEGOTIATE_START comes
/// first, stamped zero, and never again.
pub proof fn law_start_is_first_and_unique(side: Side, events: Seq<TimingEvent>)
    ensures
        emitted_by(side, events).len() > 0 <==> progress_after(events).started,
        progress_after(events).started <==> exists|k: int|
            0 <= k < events.len() && #[trigger] events[k] is Start,
        emitted_by(side, events).len() > 0 ==> emitted_by(side, events)[0] == (CheckpointView {
            name: NEGOTIATE_START@,
            role: Role::of(side),
            timestamp_ns: 0,
        }),
        forall|i: int|
            0 < i < emitted_by(side, events).len() ==> (#[trigger] emitted_by(
                side,
                events,
            )[i]).name != NEGOTIATE_START@,
    decreases events.len(),
{
    if events.len() > 0 {
        let earlier = events.drop_last();
        law_start_is_first_and_unique(side, earlier);
        crate::names::law_anchors_are_upper_snake();
        if let TimingEvent::Message { ty, .. } = events.last() {
            crate::names::law_message_is_never_named_like_an_anchor(ty, side);
        }
        if exists|k: int| 0 <= k < earlier.len() && #[trigger] earlier[k] is Start {
            let k = choose|k: int| 0 <= k < earlier.len() && #[trigger] earlier[k] is Start;
            assert(events[k] is Start);
        }
        if exists|k: int| 0 <= k < events.len() && #[trigger] events[k] is Start {
            let k = choose|k: int| 0 <= k < events.len() && #[trigger] events[k] is Start;
            if k < earlier.len() {
                assert(earlier[k] is Start);
            }
        }
    }
}

/// NEGOTIATE_END is emitted exactly when the negotiation has completed, after NEGOTIATE_START
/// and only once.
pub proof fn law_end_marks_completion_once(side: Side, events: Seq<TimingEvent>)
    ensures
        progress_after(events).ended <==> completed(events),
        progress_after(events).ended <==> exists|i: int|
            0 <= i < emitted_by(side, events).len() && (#[trigger] emitted_by(
                side,
                events,
            )[i]).name == NEGOTIATE_END@,
        forall|i: int, j: int|
            0 <= i < emitted_by(side, events).len() && 0 <= j < emitted_by(side, events).len() && (
            #[trigger] emitted_by(side, events)[i]).name == NEGOTIATE_END@ && (
            #[trigger] emitted_by(side, events)[j]).name == NEGOTIATE_END@ ==> 0 < i == j,
    decreases events.len(),
{
    let out = emitted_by(side, events);
    crate::names::law_anchors_are_upper_snake();
    law_start_is_first_and_unique(side, events);
    if events.len() > 0 {
        let earlier = events.drop_last();
        let before = emitted_by(side, earlier);
        law_end_marks_completion_once(side, earlier);
        if let TimingEvent::Message { ty, .. } = events.last() {
            crate::names::law_message_is_never_named_like_an_anchor(ty, side);
        }
        if completed(earlier) {
            let (i, j) = choose|i: int, j: int|
                0 <= i < j < earlier.len() && #[trigger] earlier[i] is Start
                    && #[trigger] earlier[j] is End;
            assert(events[i] is Start && events[j] is End);
        }
        if completed(events) && !completed(earlier) {
            let (i, j) = choose|i: int, j: int|
                0 <= i < j < events.len() && #[trigger] events[i] is Start
                    && #[trigger] events[j] is End;
            assert(earlier[i] is Start);
            if j < earlier.len() {
                assert(earlier[j] is End);
            }
        }
        if events.last() is End && progress_after(earlier).started {
            let i = choose|i: int| 0 <= i < earlier.len() && #[trigger] earlier[i] is Start;
            assert(events[i] is Start && events[events.len() - 1] is End);
        }
        if progress_after(earlier).ended {
            let k = choose|k: int| 0 <= k < before.len() && (#[trigger] before[k]).name == NEGOTIATE_END@;
            assert(out[k].name == NEGOTIATE_END@);
        } else if progress_after(events).ended {
            assert(out[out.len() - 1].name == NEGOTIATE_END@);
        }
    }
}

/// Apart from the first checkpoint and NEGOTIATE_END, every checkpoint of a connection is that
/// of a message.
pub proof fn law_other_checkpoints_are_messages(side: Side, events: Seq<TimingEvent>, i: int)
    requires
        0 < i < emitted_by(side, events).len(),
        emitted_by(side, events)[i].name != NEGOTIATE_END@,
    ensures
        is_message(emitted_by(side, events)[i], side),
    decreases events.len(),
{
    let earlier = emitted_by(side, events.drop_last());
    if i < earlier.len() {
        law_other_checkpoints_are_messages(side, events.drop_last(), i);
    } else {
        law_start_is_first_and_unique(side, events.drop_last());
        if let TimingEvent::Message { ty, .. } = events.last() {
            assert(emitted_by(side, events)[i].name == crate::names::name_of(ty, side));
        }
    }
}

/// All checkpoints strictly between the anchors are those of messages, and not anchors.
pub proof fn law_between_the_anchors_are_messages(
    side: Side,
    events: Seq<TimingEvent>,
    i: int,
    end: int,
)
    requires
        0 < i < end < emitted_by(side, events).len(),
        emitted_by(side, events)[end].name == NEGOTIATE_END@,
    ensures
        is_message(emitted_by(side, events)[i], side),
        emitted_by(side, events)[i].name != NEGOTIATE_START@,
        emitted_by(side, events)[i].name != NEGOTIATE_END@,
{
    law_start_is_first_and_unique(side, events);
    law_end_marks_completion_once(side, events);
    law_other_checkpoints_are_messages(side, events, i);
}

/// No checkpoint is stamped later than every elapsed time that the events carry.
proof fn lemma_timestamps_are_bounded(side: Side, events: Seq<TimingEvent>, bound: u64)
    requires
        forall|k: int|
            0 <= k < events.len() ==> ((#[trigger] events[k]).elapsed() matches Some(a) ==> a
                <= bound),
    ensures
        forall|i: int|
            0 <= i < emitted_by(side, events).len() ==> (#[trigger] emitted_by(
                side,
                events,
            )[i]).timestamp_ns <= bound,
    decreases events.len(),
{
    if events.len() > 0 {
        let earlier = events.drop_last();
        assert forall|k: int| 0 <= k < earlier.len() implies ((
        #[trigger] earlier[k]).elapsed() matches Some(a) ==> a <= bound) by {
            assert(earlier[k] == events[k]);
        }
        lemma_timestamps_are_bounded(side, earlier, bound);
    }
}

/// Where the elapsed times come from a monotonic clock, the timestamps of a connection never
/// decrease.
pub proof fn law_timestamps_never_decrease(
    side: Side,
    events: Seq<TimingEvent>,
    i: int,
    j: int,
)
    requires
        elapsed_in_order(events),
        0 <= i <= j < emitted_by(side, events).len(),
    ensures
        emitted_by(side, events)[i].timestamp_ns <= emitted_by(side, events)[j].timestamp_ns,
    decreases events.len(),
{
    let earlier = events.drop_last();
    let before = emitted_by(side, earlier);
    assert forall|a: int, b: int| 0 <= a < b < earlier.len() implies {
        (#[trigger] earlier[a]).elapsed() matches Some(x) ==> (
        #[trigger] earlier[b]).elapsed() matches Some(y) ==> x <= y
    } by {
        assert(earlier[a] == events[a] && earlier[b] == events[b]);
    }
    if j < before.len() {
        law_timestamps_never_decrease(side, earlier, i, j);
    } else if i < j {
        law_start_is_first_and_unique(side, earlier);
        let last = events.last();
        let bound = last.checkpoint(side).timestamp_ns;
        assert forall|k: int| 0 <= k < earlier.len() implies ((
        #[trigger] earlier[k]).elapsed() matches Some(a) ==> a <= bound) by {
            assert(earlier[k] == events[k]);
        }
        lemma_timestamps_are_bounded(side, earlier, bound);
    }
}

/// Before the negotiation starts, nothing is emitted and there is no epoch.
pub proof fn law_nothing_is_emitted_before_start(side: Side, events: Seq<TimingEvent>)
    requires
        forall|k: int| 0 <= k < events.len() ==> !(#[trigger] events[k] is Start),
    ensures
        emitted_by(side, events) == Seq::<CheckpointView>::empty(),
        progress_after(events).epoch is None,
{
    law_start_is_first_and_unique(side, events);
    law_progress_is_well_formed(events);
}

/// The first start is emitted, stamped zero, and sets the epoch.
pub proof fn law_first_start_is_emitted(side: Side, events: Seq<TimingEvent>, now: Instant)
    requires
        forall|k: int| 0 <= k < events.len() ==> !(#[trigger] events[k] is Start),
    ensures
        emitted_by(side, events.push(TimingEvent::Start { now })) == seq![
            CheckpointView { name: NEGOTIATE_START@, role: Role::of(side), timestamp_ns: 0 },
        ],
        progress_after(events.push(TimingEvent::Start { now })).epoch == Some(now),
{
    law_nothing_is_emitted_before_start(side, events);
    law_start_is_first_and_unique(side, events);
    law_event_extends_the_trace(side, events, TimingEvent::Start { now });
}

/// A start of a negotiation that has already started emits nothing and moves no epoch.
pub proof fn law_further_start_changes_nothing(side: Side, events: Seq<TimingEvent>, now: Instant)
    requires
        exists|k: int| 0 <= k < events.len() && #[trigger] events[k] is Start,
    ensures
        emitted_by(side, events.push(TimingEvent::Start { now })) == emitted_by(side, events),
        progress_after(events.push(TimingEvent::Start { now })) == progress_after(events),
{
    law_start_is_first_and_unique(side, events);
    law_event_extends_the_trace(side, events, TimingEvent::Start { now });
}

/// Every message after the start is emitted, whatever its type and also after the negotiation
/// has completed: one more checkpoint, with the message's name, the connection's role and the
/// message's elapsed time.
pub proof fn law_message_after_start_is_emitted(
    side: Side,
    events: Seq<TimingEvent>,
    ty: HandshakeType,
    elapsed_ns: u64,
)
    requires
        exists|k: int| 0 <= k < events.len() && #[trigger] events[k] is Start,
    ensures
        emitted_by(side, events.push(TimingEvent::Message { ty, elapsed_ns })) == emitted_by(
            side,
            events,
        ).push(
            CheckpointView {
                name: crate::names::name_of(ty, side),
                role: Role::of(side),
                timestamp_ns: elapsed_ns,
            },
        ),
        progress_after(events.push(TimingEvent::Message { ty, elapsed_ns })) == progress_after(
            events,
        ),
{
    law_start_is_first_and_unique(side, events);
    law_event_extends_the_trace(side, events, TimingEvent::Message { ty, elapsed_ns });
}

/// The first completion of a negotiation that has started is emitted, stamped with its elapsed
/// time; and as the start is stamped zero, that time is the span from start to end.
pub proof fn law_completion_is_emitted(side: Side, events: Seq<TimingEvent>, elapsed_ns: u64)
    requires
        exists|k: int| 0 <= k < events.len() && #[trigger] events[k] is Start,
        forall|i: int, j: int|
            0 <= i < j < events.len() ==> !(#[trigger] events[i] is Start && #[trigger] events[j] is End),
    ensures
        emitted_by(side, events.push(TimingEvent::End { elapsed_ns })) == emitted_by(
            side,
            events,
        ).push(
            CheckpointView { name: NEGOTIATE_END@, role: Role::of(side), timestamp_ns: elapsed_ns },
        ),
        ({
            let checkpoints = emitted_by(side, events.push(TimingEvent::End { elapsed_ns }));
            checkpoints.last().timestamp_ns - checkpoints[0].timestamp_ns == elapsed_ns
        }),
{
    law_start_is_first_and_unique(side, events);
    law_end_marks_completion_once(side, events);
    law_event_extends_the_trace(side, events, TimingEvent::End { elapsed_ns });
}

/// A completion of a negotiation that has not started, or has already completed, changes
/// nothing.
pub proof fn law_other_completion_changes_nothing(
    side: Side,
    events: Seq<TimingEvent>,
    elapsed_ns: u64,
)
    requires
        (forall|k: int| 0 <= k < events.len() ==> !(#[trigger] events[k] is Start)) || (exists|
            i: int,
            j: int,
        |
            0 <= i < j < events.len() && #[trigger] events[i] is Start && #[trigger] events[j] is End),
    ensures
        emitted_by(side, events.push(TimingEvent::End { elapsed_ns })) == emitted_by(side, events),
        progress_after(events.push(TimingEvent::End { elapsed_ns })) == progress_after(events),
{
    law_start_is_first_and_unique(side, events);
    law_end_marks_completion_once(side, events);
    law_event_extends_the_trace(side, events, TimingEvent::End { elapsed_ns });
}

/// The epoch of a connection is the moment of its first start, for good.
pub proof fn law_epoch_is_the_first_start(events: Seq<TimingEvent>, k: int, now: Instant)
    requires
        0 <= k < events.len(),
        events[k] == (TimingEvent::Start { now }),
        forall|j: int| 0 <= j < k ==> !(#[trigger] events[j] is Start),
    ensures
        progress_after(events).epoch == Some(now),
    decreases events.len(),
{
    let earlier = events.drop_last();
    assert(earlier.push(events.last()) =~= events);
    if k < earlier.len() {
        assert(earlier[k] is Start);
        law_epoch_is_the_first_start(earlier, k, now);
        law_start_is_first_and_unique(Side::Client, earlier);
    } else {
        assert forall|j: int| 0 <= j < earlier.len() implies !(#[trigger] earlier[j] is Start) by {
            assert(earlier[j] == events[j]);
        }
        law_first_start_is_emitted(Side::Client, earlier, now);
    }
}

/// A started connection has emitted one checkpoint for its start, one for each message since,
/// and one for its end if it has completed.
pub proof fn law_every_message_is_counted_once(side: Side, events: Seq<TimingEvent>, k: int)
    requires
        0 <= k < events.len(),
        events[k] is Start,
        forall|j: int| 0 <= j < k ==> !(#[trigger] events[j] is Start),
    ensures
        emitted_by(side, events).len() == 1 + message_count(events.skip(k + 1)) + (if completed(
            events,
        ) {
            1nat
        } else {
            0nat
        }),
    decreases events.len(),
{
    let earlier = events.drop_last();
    let since = events.skip(k + 1);
    law_end_marks_completion_once(side, events);
    law_start_is_first_and_unique(side, events);
    law_end_marks_completion_once(side, earlier);
    law_start_is_first_and_unique(side, earlier);
    if k < earlier.len() {
        assert(earlier[k] is Start);
        law_every_message_is_counted_once(side, earlier, k);
        assert(since.drop_last() =~= earlier.skip(k + 1));
        assert(since.last() == events.last());
    } else {
        assert(since.len() == 0);
        assert forall|j: int| 0 <= j < earlier.len() implies !(#[trigger] earlier[j] is Start) by {
            assert(earlier[j] == events[j]);
        }
    }
}

/// What a subscriber receives is what its connection emits: where it had received the
/// checkpoints of `events`, and now receives the one that was emitted on `event`, or none, it has
/// received those of `events` and `event`.
pub proof fn law_subscriber_receives_the_trace(
    side: Side,
    events: Seq<TimingEvent>,
    event: TimingEvent,
    emitted: Option<CheckpointView>,
    before: Seq<CheckpointView>,
    after: Seq<CheckpointView>,
)
    requires
        before == emitted_by(side, events),
        emitted is Some <==> event.emits(progress_after(events)),
        emitted matches Some(checkpoint) ==> checkpoint == event.checkpoint(side),
        emitted matches Some(checkpoint) ==> after == before.push(checkpoint),
        emitted is None ==> after == before,
    ensures
        after == emitted_by(side, events.push(event)),
        after.len() <= before.len() + 1,
        event is Message && (exists|k: int| 0 <= k < events.len() && #[trigger] events[k] is Start) ==> after.len() == before.len() + 1,
{
    law_event_extends_the_trace(side, events, event);
    law_start_is_first_and_unique(side, events);
}

} // verus!
