//! The bounded lock-free channel that carries parameter updates from the
//! control thread to the audio thread.
//!
//! Both handles share one `crossbeam_queue::ArrayQueue`. What a handle finds
//! pending depends on what the other handle has done in the meantime, so the
//! contract of a call states only what holds of every outcome.
//!
//! The rule of the channel is written down apart from the handles: the spec
//! functions of this module say what a send and a pop do to a run of pending
//! updates, oldest first, and the laws below them are proved of those
//! functions. They describe the queue as its source documents it; no contract
//! of a handle rests on them.

use crate::update::ParameterUpdate;
use crossbeam_queue::ArrayQueue;
use std::sync::Arc;
use vstd::prelude::*;

verus! {

/// The largest capacity a channel can be asked for. A slot of the queue takes
/// up to sixteen bytes and one allocation at most `isize::MAX` bytes: this
/// many slots always fit one allocation, and with slots of sixteen bytes no
/// more do.
pub const MAX_CAPACITY: usize = usize::MAX / 32;

/// `crossbeam_queue::ArrayQueue`, carried as an opaque value.
#[verifier::external_type_specification]
#[verifier::external_body]
#[verifier::reject_recursive_types(T)]
pub struct ExArrayQueue<T>(ArrayQueue<T>);

/// The capacity that a queue was made with. It never changes.
pub uninterp spec fn queue_capacity(queue: ArrayQueue<ParameterUpdate>) -> nat;

/// `ArrayQueue::new`: a queue for `capacity` updates. The call panics on a
/// capacity of zero and on one whose slots would overflow an allocation; both
/// are left out. Whether the allocator finds the memory is not part of this
/// contract.
#[verifier::external_body]
fn queue_new(capacity: usize) -> (queue: ArrayQueue<ParameterUpdate>)
    requires
        0 < capacity <= MAX_CAPACITY,
    ensures
        queue_capacity(queue) == capacity,
{
    ArrayQueue::new(capacity)
}

/// `Arc::clone`: a second handle to the same queue.
#[verifier::external_body]
fn queue_share(queue: &Arc<ArrayQueue<ParameterUpdate>>) -> (other: Arc<ArrayQueue<ParameterUpdate>>)
    ensures
        other == *queue,
{
    Arc::clone(queue)
}

/// `ArrayQueue::capacity`: the capacity the queue was made with.
#[verifier::external_body]
fn queue_limit(queue: &ArrayQueue<ParameterUpdate>) -> (limit: usize)
    ensures
        limit == queue_capacity(*queue),
{
    queue.capacity()
}

/// `ArrayQueue::push`: the update is taken, or it comes back as it was given
/// because the queue was full.
#[verifier::external_body]
fn queue_push(queue: &ArrayQueue<ParameterUpdate>, update: ParameterUpdate) -> (outcome: Result<
    (),
    ParameterUpdate,
>)
    ensures
        outcome matches Err(rejected) ==> rejected == update,
{
    queue.push(update)
}

/// `ArrayQueue::pop`: the oldest update in the queue, or nothing if the queue
/// was empty.
#[verifier::external_body]
fn queue_pop(queue: &ArrayQueue<ParameterUpdate>) -> Option<ParameterUpdate> {
    queue.pop()
}

/// What a send returns when it finds `pending` in a channel of the given
/// capacity: the update comes back exactly when there is no room for it.
pub open spec fn send_outcome(
    pending: Seq<ParameterUpdate>,
    capacity: nat,
    update: ParameterUpdate,
) -> Result<(), ParameterUpdate> {
    if pending.len() < capacity {
        Ok(())
    } else {
        Err(update)
    }
}

/// What the channel holds after that send: the update is last in line if
/// there was room, and the run is as it was if not.
pub open spec fn after_send(
    pending: Seq<ParameterUpdate>,
    capacity: nat,
    update: ParameterUpdate,
) -> Seq<ParameterUpdate> {
    if pending.len() < capacity {
        pending.push(update)
    } else {
        pending
    }
}

/// What a pop returns when it finds `pending`: the oldest update, if any.
pub open spec fn pop_outcome(pending: Seq<ParameterUpdate>) -> Option<ParameterUpdate> {
    if pending.len() > 0 {
        Some(pending.first())
    } else {
        None
    }
}

/// What the channel holds after that pop: all but the oldest update.
pub open spec fn after_pop(pending: Seq<ParameterUpdate>) -> Seq<ParameterUpdate> {
    if pending.len() > 0 {
        pending.drop_first()
    } else {
        pending
    }
}

/// What the channel holds after a run of sends, each made in turn.
pub open spec fn after_sends(
    pending: Seq<ParameterUpdate>,
    capacity: nat,
    updates: Seq<ParameterUpdate>,
) -> Seq<ParameterUpdate>
    decreases updates.len(),
{
    if updates.len() == 0 {
        pending
    } else {
        after_send(after_sends(pending, capacity, updates.drop_last()), capacity, updates.last())
    }
}

/// Sends into an empty channel succeed, one after the other, until as many
/// updates are pending as the channel has room for; they are then pending in
/// the order sent.
pub proof fn law_sends_fill_an_empty_channel(capacity: nat, updates: Seq<ParameterUpdate>)
    requires
        updates.len() <= capacity,
    ensures
        after_sends(Seq::empty(), capacity, updates) == updates,
        forall|sent: int|
            0 <= sent < updates.len() ==> send_outcome(
                #[trigger] after_sends(Seq::empty(), capacity, updates.take(sent)),
                capacity,
                updates[sent],
            ) == Ok::<(), ParameterUpdate>(()),
    decreases updates.len(),
{
    if updates.len() > 0 {
        law_sends_fill_an_empty_channel(capacity, updates.drop_last());
        assert(updates.drop_last().push(updates.last()) =~= updates);
    }
    assert forall|sent: int| 0 <= sent < updates.len() implies send_outcome(
        #[trigger] after_sends(Seq::empty(), capacity, updates.take(sent)),
        capacity,
        updates[sent],
    ) == Ok::<(), ParameterUpdate>(()) by {
        law_sends_fill_an_empty_channel(capacity, updates.take(sent));
    }
}

/// A send to a channel that holds as many updates as its capacity fails and
/// returns the update unchanged, and nothing pending is lost or reordered.
/// After one pop, which takes the oldest update, the next send succeeds.
pub proof fn law_full_channel_rejects_until_popped(
    capacity: nat,
    pending: Seq<ParameterUpdate>,
    update: ParameterUpdate,
)
    requires
        capacity > 0,
        pending.len() == capacity,
    ensures
        send_outcome(pending, capacity, update) == Err::<(), ParameterUpdate>(update),
        after_send(pending, capacity, update) == pending,
        pop_outcome(pending) == Some(pending.first()),
        send_outcome(after_pop(pending), capacity, update) == Ok::<(), ParameterUpdate>(()),
        after_send(after_pop(pending), capacity, update) == pending.drop_first().push(update),
{
}

/// Updates leave the channel in the order in which they entered it: what was
/// sent into an empty channel is popped oldest first.
pub proof fn law_first_in_first_out(
    capacity: nat,
    updates: Seq<ParameterUpdate>,
    popped: int,
)
    requires
        updates.len() <= capacity,
        0 <= popped < updates.len(),
    ensures
        pop_outcome(after_pops(after_sends(Seq::empty(), capacity, updates), popped as nat))
            == Some(updates[popped]),
{
    law_sends_fill_an_empty_channel(capacity, updates);
    lemma_pops_skip(updates, popped as nat);
}

/// What the channel holds after a number of pops.
pub open spec fn after_pops(pending: Seq<ParameterUpdate>, count: nat) -> Seq<ParameterUpdate>
    decreases count,
{
    if count == 0 {
        pending
    } else {
        after_pop(after_pops(pending, (count - 1) as nat))
    }
}

proof fn lemma_pops_skip(pending: Seq<ParameterUpdate>, count: nat)
    requires
        count <= pending.len(),
    ensures
        after_pops(pending, count) == pending.skip(count as int),
    decreases count,
{
    if count == 0 {
        assert(pending.skip(0) =~= pending);
    } else {
        lemma_pops_skip(pending, (count - 1) as nat);
        assert(pending.skip(count - 1).drop_first() =~= pending.skip(count as int));
    }
}

/// The sending half of a parameter channel, for the control thread.
#[derive(Debug)]
pub struct ParameterSender {
    queue: Arc<ArrayQueue<ParameterUpdate>>,
}

impl Clone for ParameterSender {
    /// Another handle to the sending half of the same channel.
    fn clone(&self) -> (other: ParameterSender)
        ensures
            other == *self,
    {
        ParameterSender { queue: queue_share(&self.queue) }
    }
}

/// The receiving half of a parameter channel, for the audio thread.
#[derive(Debug)]
pub struct ParameterReceiver {
    queue: Arc<ArrayQueue<ParameterUpdate>>,
}

impl ParameterSender {
    /// The number of updates the channel can hold.
    pub closed spec fn capacity(&self) -> nat {
        queue_capacity(*self.queue)
    }

    /// Whether the receiver takes what this sender sends.
    pub closed spec fn feeds(&self, receiver: &ParameterReceiver) -> bool {
        self.queue == receiver.queue
    }

    /// Offers an update to the channel without blocking. A full channel hands
    /// the update back unchanged.
    pub fn send(&self, update: ParameterUpdate) -> (outcome: Result<(), ParameterUpdate>)
        ensures
            outcome matches Err(rejected) ==> rejected == update,
    {
        queue_push(&self.queue, update)
    }
}

impl ParameterReceiver {
    /// The number of updates the channel can hold.
    pub closed spec fn capacity(&self) -> nat {
        queue_capacity(*self.queue)
    }

    /// Takes the oldest pending update, if there is one, without blocking.
    pub fn pop(&self) -> Option<ParameterUpdate> {
        queue_pop(&self.queue)
    }

    /// The number of updates the channel can hold.
    pub fn limit(&self) -> (limit: usize)
        ensures
            limit == self.capacity(),
    {
        queue_limit(&self.queue)
    }
}

/// Makes a channel for `capacity` pending updates and returns its two halves.
pub fn parameter_channel(capacity: usize) -> (halves: (ParameterSender, ParameterReceiver))
    requires
        0 < capacity <= MAX_CAPACITY,
    ensures
        halves.0.capacity() == capacity,
        halves.1.capacity() == capacity,
        halves.0.feeds(&halves.1),
{
    let queue = Arc::new(queue_new(capacity));
    (ParameterSender { queue: queue_share(&queue) }, ParameterReceiver { queue })
}

} // verus!
