//! The queues between the program's threads.

use crossbeam_channel::Receiver;
use vstd::prelude::*;

verus! {

/// How many events of the capture loop wait for the application at most.
pub const EVENT_CAPACITY: usize = 2;

/// How many commands wait for the capture loop at most.
pub const COMMAND_CAPACITY: usize = 2;

/// How many frames wait for the face-tracking worker at most.
pub const AR_FRAME_CAPACITY: usize = 1;

/// How many reports of the face-tracking worker wait for the application at most.
pub const AR_REPORT_CAPACITY: usize = 2;

/// How many reports on NextFace wait for the application at most.
pub const STATUS_CAPACITY: usize = 2;

/// Makes `crossbeam_channel::Receiver` known.
#[verifier::external_type_specification]
#[verifier::external_body]
#[verifier::reject_recursive_types(T)]
pub struct ExReceiver<T>(crossbeam_channel::Receiver<T>);

/// Calls `crossbeam_channel::Receiver::try_iter` and collects what it yields: all that
/// is in the queue, oldest first, without waiting for more.
///
/// Nothing is claimed of what comes back: that depends on the other threads.
#[verifier::external_body]
fn drain<T>(receiver: &Receiver<T>) -> (items: Vec<T>) {
    receiver.try_iter().collect()
}

/// Calls `take` on the queue.
fn taken<T, F: Fn(&Receiver<T>) -> Vec<T>>(take: F, receiver: &Receiver<T>) -> (items: Vec<T>)
    requires
        call_requires(take, (receiver,)),
    ensures
        call_ensures(take, (receiver,), items),
{
    take(receiver)
}

/// The receiving end of a queue, with a record of all that was taken from it. There is no
/// other way to take something than [`Inbox::take_all`].
#[verifier::reject_recursive_types(T)]
pub struct Inbox<T> {
    receiver: Receiver<T>,
    record: Ghost<Seq<T>>,
}

impl<T> Inbox<T> {
    /// All that was taken from the queue, oldest first.
    pub closed spec fn history(self) -> Seq<T> {
        self.record@
    }

    /// The queue.
    pub closed spec fn queue(self) -> Receiver<T> {
        self.receiver
    }

    /// Whether `items` may be what a queue yields when all that is in it is taken.
    pub closed spec fn yields(queue: Receiver<T>, items: Vec<T>) -> bool {
        call_ensures(drain::<T>, (&queue,), items)
    }

    /// Whether all that is in the queue is taken once, and it is `items`.
    pub open spec fn gives(self, items: Vec<T>, after: Inbox<T>) -> bool {
        &&& Self::yields(self.queue(), items)
        &&& after.queue() == self.queue()
        &&& after.history() == self.history() + items@
    }

    /// The receiving end of a queue from which nothing was taken yet.
    pub fn new(receiver: Receiver<T>) -> (inbox: Inbox<T>)
        ensures
            inbox.queue() == receiver,
            inbox.history() == Seq::<T>::empty(),
    {
        Inbox { receiver, record: Ghost(Seq::empty()) }
    }

    /// Takes all that is in the queue.
    pub fn take_all(&mut self) -> (items: Vec<T>)
        ensures
            old(self).gives(items, *final(self)),
    {
        let items = taken(drain::<T>, &self.receiver);
        self.record = Ghost(self.record@ + items@);
        items
    }
}

/// Taking from a queue twice adds first the one batch and then the other to the record, and
/// it stays the same queue.
pub proof fn law_batches_are_recorded<T>(
    before: Inbox<T>,
    first: Vec<T>,
    between: Inbox<T>,
    second: Vec<T>,
    after: Inbox<T>,
)
    requires
        before.gives(first, between),
        between.gives(second, after),
    ensures
        after.history() == before.history() + first@ + second@,
        after.queue() == before.queue(),
{
}

} // verus!
