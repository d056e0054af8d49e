//! The commands that a controller sends, and the queue in which they wait
//! for the next simulation tick.

use vstd::prelude::*;
use crate::math::{Quat, Vec3};

verus! {

/// What a command carries.
#[derive(Clone, Copy, Debug, PartialEq, Eq, Structural)]
pub enum CommandDataType {
    /// A step by which the paddle is to move.
    Position(Vec3),
    /// The orientation of the controller.
    Rotation(Quat),
}

/// One command of a controller. It does not change once it is made.
#[derive(Clone, Copy, Debug, PartialEq, Eq, Structural)]
pub struct RacketTransformCommand {
    pub command: CommandDataType,
}

/// The commands that have arrived and were not applied yet, oldest first.
///
/// The queue is a plain value. Where several connections fill it while the
/// simulation empties it, the owner keeps it behind a lock and holds the lock
/// for one [`push`](RacketCommandQueue::push) or one
/// [`drain`](RacketCommandQueue::drain): the pushes then reach the queue in
/// some order, which is the order of this sequence.
#[derive(Debug)]
pub struct RacketCommandQueue {
    commands: Vec<RacketTransformCommand>,
}

impl View for RacketCommandQueue {
    type V = Seq<RacketTransformCommand>;

    closed spec fn view(&self) -> Seq<RacketTransformCommand> {
        self.commands@
    }
}

impl RacketCommandQueue {
    pub fn new() -> (queue: RacketCommandQueue)
        ensures
            queue@ == Seq::<RacketTransformCommand>::empty(),
    {
        RacketCommandQueue { commands: Vec::new() }
    }

    /// Number of commands that wait.
    pub fn len(&self) -> (n: usize)
        ensures
            n == self@.len(),
    {
        self.commands.len()
    }

    pub fn is_empty(&self) -> (r: bool)
        ensures
            r == (self@.len() == 0),
    {
        self.commands.len() == 0
    }

    /// Puts `command` behind all that wait.
    pub fn push(&mut self, command: RacketTransformCommand)
        ensures
            final(self)@ == old(self)@.push(command),
    {
        self.commands.push(command);
    }

    /// Takes out all that wait, oldest first, and leaves the queue empty:
    /// see [`drained`].
    pub fn drain(&mut self) -> (batch: Vec<RacketTransformCommand>)
        ensures
            batch@ == drained(old(self)@).0,
            final(self)@ == drained(old(self)@).1,
    {
        let mut batch: Vec<RacketTransformCommand> = Vec::new();
        core::mem::swap(&mut self.commands, &mut batch);
        batch
    }
}

/// What one drain makes of a queue: the batch that it returns, which is the
/// whole queue in its order, and the queue that it leaves, which is empty.
pub open spec fn drained(
    queue: Seq<RacketTransformCommand>,
) -> (Seq<RacketTransformCommand>, Seq<RacketTransformCommand>) {
    (queue, Seq::empty())
}

/// One push as the queue saw it: who pushed, and what.
pub struct Arrival {
    pub producer: nat,
    pub command: RacketTransformCommand,
}

/// The queue after `arrivals` were pushed onto `queue`, one at a time and in
/// their order.
pub open spec fn after_pushes(
    queue: Seq<RacketTransformCommand>,
    arrivals: Seq<Arrival>,
) -> Seq<RacketTransformCommand>
    decreases arrivals.len(),
{
    if arrivals.len() == 0 {
        queue
    } else {
        after_pushes(queue, arrivals.drop_last()).push(arrivals.last().command)
    }
}

/// What `producer` pushed, in the order in which it pushed.
pub open spec fn sent_by(arrivals: Seq<Arrival>, producer: nat) -> Seq<RacketTransformCommand>
    decreases arrivals.len(),
{
    if arrivals.len() == 0 {
        Seq::empty()
    } else if arrivals.last().producer == producer {
        sent_by(arrivals.drop_last(), producer).push(arrivals.last().command)
    } else {
        sent_by(arrivals.drop_last(), producer)
    }
}

/// Those of `batch` that `owner` gives to `producer`, in the order of
/// `batch`.
pub open spec fn share_of(
    batch: Seq<RacketTransformCommand>,
    owner: Seq<nat>,
    producer: nat,
) -> Seq<RacketTransformCommand>
    decreases batch.len(),
{
    if batch.len() == 0 || owner.len() != batch.len() {
        Seq::empty()
    } else if owner.last() == producer {
        share_of(batch.drop_last(), owner.drop_last(), producer).push(batch.last())
    } else {
        share_of(batch.drop_last(), owner.drop_last(), producer)
    }
}

/// `batch` interleaves what the producers sent: each of its items can be
/// given to one producer so that every producer's share is what it sent, in
/// the order in which it sent.
pub open spec fn interleaves(batch: Seq<RacketTransformCommand>, arrivals: Seq<Arrival>) -> bool {
    exists|owner: Seq<nat>|
        owner.len() == batch.len() && forall|producer: nat|
            #[trigger] share_of(batch, owner, producer) == sent_by(arrivals, producer)
}

/// The producers of `arrivals`, one for each arrival.
pub open spec fn producers_of(arrivals: Seq<Arrival>) -> Seq<nat> {
    Seq::new(arrivals.len(), |i: int| arrivals[i].producer)
}

/// The commands of `arrivals`, one for each arrival.
pub open spec fn commands_of(arrivals: Seq<Arrival>) -> Seq<RacketTransformCommand> {
    Seq::new(arrivals.len(), |i: int| arrivals[i].command)
}

proof fn lemma_after_pushes(queue: Seq<RacketTransformCommand>, arrivals: Seq<Arrival>)
    ensures
        after_pushes(queue, arrivals) == queue + commands_of(arrivals),
    decreases arrivals.len(),
{
    if arrivals.len() > 0 {
        lemma_after_pushes(queue, arrivals.drop_last());
        assert(commands_of(arrivals) == commands_of(arrivals.drop_last()).push(
            arrivals.last().command,
        ));
    }
}

proof fn lemma_share_of_arrivals(arrivals: Seq<Arrival>, producer: nat)
    ensures
        share_of(commands_of(arrivals), producers_of(arrivals), producer) == sent_by(
            arrivals,
            producer,
        ),
    decreases arrivals.len(),
{
    if arrivals.len() > 0 {
        lemma_share_of_arrivals(arrivals.drop_last(), producer);
        assert(commands_of(arrivals).drop_last() == commands_of(arrivals.drop_last()));
        assert(producers_of(arrivals).drop_last() == producers_of(arrivals.drop_last()));
    }
}

proof fn lemma_sent_by_joined(first: Seq<Arrival>, then: Seq<Arrival>, producer: nat)
    ensures
        sent_by(first + then, producer) == sent_by(first, producer) + sent_by(then, producer),
    decreases then.len(),
{
    if then.len() == 0 {
        assert(first + then == first);
    } else {
        lemma_sent_by_joined(first, then.drop_last(), producer);
        assert((first + then).drop_last() == first + then.drop_last());
    }
}

/// Draining is whole and keeps the order. Let any number of producers push
/// onto an empty queue, their pushes reaching it in any order. One drain
/// then returns every command pushed, no command twice, in the order of
/// arrival: the batch interleaves what the producers sent, and each
/// producer's commands stand in it in the order in which that producer
/// pushed them. Nothing is left in the queue.
pub proof fn lemma_drain_interleaves_producers(arrivals: Seq<Arrival>)
    ensures
        ({
            let (batch, left) = drained(after_pushes(Seq::empty(), arrivals));
            &&& batch.len() == arrivals.len()
            &&& forall|i: int| 0 <= i < arrivals.len() ==> batch[i] == arrivals[i].command
            &&& interleaves(batch, arrivals)
            &&& left.len() == 0
        }),
{
    let batch = after_pushes(Seq::empty(), arrivals);
    let owner = producers_of(arrivals);
    lemma_after_pushes(Seq::empty(), arrivals);
    assert forall|producer: nat| #[trigger]
        share_of(batch, owner, producer) == sent_by(arrivals, producer) by {
        lemma_share_of_arrivals(arrivals, producer);
    }
    assert(owner.len() == batch.len());
}

/// A drain takes effect at one instant among the pushes. Let any number of
/// producers push onto an empty queue, and let one drain fall after the
/// first `at` of their pushes. The batch is then what arrived before
/// the drain, and what arrived after it waits in the queue for the next
/// drain: every command pushed is in the one or in the other, none in both
/// and none in neither, each in its order. Of each producer the batch holds
/// a first part of what that producer sent, in the order in which it sent,
/// and the queue holds the rest.
pub proof fn lemma_drain_parts_the_arrivals(arrivals: Seq<Arrival>, at: int)
    requires
        0 <= at <= arrivals.len(),
    ensures
        ({
            let before = arrivals.subrange(0, at);
            let later = arrivals.subrange(at, arrivals.len() as int);
            let (batch, left) = drained(after_pushes(Seq::empty(), before));
            let waiting = after_pushes(left, later);
            &&& batch == commands_of(before)
            &&& waiting == commands_of(later)
            &&& batch + waiting == commands_of(arrivals)
            &&& interleaves(batch, before)
            &&& interleaves(waiting, later)
            &&& forall|producer: nat| #[trigger]
                sent_by(arrivals, producer) == sent_by(before, producer) + sent_by(
                    later,
                    producer,
                )
        }),
{
    let before = arrivals.subrange(0, at);
    let later = arrivals.subrange(at, arrivals.len() as int);
    lemma_after_pushes(Seq::empty(), before);
    lemma_after_pushes(Seq::empty(), later);
    lemma_drain_interleaves_producers(before);
    lemma_drain_interleaves_producers(later);
    assert(before + later == arrivals);
    assert(commands_of(before) + commands_of(later) == commands_of(arrivals));
    assert forall|producer: nat| #[trigger]
        sent_by(arrivals, producer) == sent_by(before, producer) + sent_by(later, producer) by {
        lemma_sent_by_joined(before, later, producer);
    }
}

} // verus!
