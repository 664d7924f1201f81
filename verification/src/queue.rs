use vstd::prelude::*;

use crate::response::EventModel;
use crate::worker::{CommandModel, WorkerCommand};

verus! {

/// Declares crossbeam's SegQueue, the unbounded lock-free
/// multi-producer/multi-consumer FIFO, opaque to the verifier.
#[verifier::external_type_specification]
#[verifier::external_body]
#[verifier::reject_recursive_types(T)]
pub struct ExSegQueue<T>(crossbeam::queue::SegQueue<T>);

/// What a work-distribution queue holds, oldest first: everything pushed
/// and not yet popped.
pub uninterp spec fn queued_commands(queue: crossbeam::queue::SegQueue<WorkerCommand>) -> Seq<
    CommandModel,
>;

/// Relies on crossbeam's SegQueue::new: a freshly created queue holds
/// nothing.
#[verifier::external_body]
fn seg_new() -> (r: crossbeam::queue::SegQueue<WorkerCommand>)
    ensures
        queued_commands(r) =~= Seq::<CommandModel>::empty(),
{
    crossbeam::queue::SegQueue::new()
}

/// Relies on crossbeam's SegQueue::push_mut: with the queue held
/// exclusively, appends the command at the tail and changes nothing else.
#[verifier::external_body]
fn seg_push(queue: &mut crossbeam::queue::SegQueue<WorkerCommand>, command: WorkerCommand)
    ensures
        queued_commands(*final(queue)) =~= queued_commands(*old(queue)).push(command@),
    no_unwind
{
    queue.push_mut(command);
}

/// Relies on crossbeam's SegQueue::pop_mut: with the queue held
/// exclusively, takes the command at the head — the oldest one — or
/// nothing from an empty queue, and changes nothing else.
#[verifier::external_body]
fn seg_pop(queue: &mut crossbeam::queue::SegQueue<WorkerCommand>) -> (r: Option<WorkerCommand>)
    ensures
        (match r {
            Some(command) => queued_commands(*old(queue)).len() > 0 && command@ == queued_commands(
                *old(queue),
            )[0] && queued_commands(*final(queue)) =~= queued_commands(*old(queue)).drop_first(),
            None => queued_commands(*old(queue)).len() == 0 && queued_commands(*final(queue))
                =~= queued_commands(*old(queue)),
        }),
    no_unwind
{
    queue.pop_mut()
}

/// The process-wide work-distribution queue: an unbounded, lock-free,
/// multi-producer/multi-consumer FIFO of request tokens. Listener threads
/// push, worker threads take; a push always succeeds, and backpressure
/// happens earlier, at the body-size cap. These operations give the
/// exclusively-held view of the queue; fanning it out across threads is the
/// embedding's business and adds interleaving, never loss or duplication.
pub struct WorkQueue {
    inner: crossbeam::queue::SegQueue<WorkerCommand>,
}

impl WorkQueue {
    /// The queued commands, oldest first.
    pub closed spec fn commands(&self) -> Seq<CommandModel> {
        queued_commands(self.inner)
    }

    #[verifier::type_invariant]
    spec fn wf(self) -> bool {
        forall|i: int|
            #![auto]
            0 <= i < queued_commands(self.inner).len() ==> queued_commands(self.inner)[i].trace
                =~= Seq::<EventModel>::empty()
    }

    /// An empty queue, made once at server start.
    pub fn new() -> (r: Self)
        ensures
            r.commands() =~= Seq::<CommandModel>::empty(),
    {
        WorkQueue { inner: seg_new() }
    }

    /// Enqueues one request token; its response channel must still be
    /// untouched. Non-blocking, and always succeeds.
    pub fn push(&mut self, command: WorkerCommand)
        requires
            command@.trace =~= Seq::<EventModel>::empty(),
        ensures
            final(self).commands() =~= old(self).commands().push(command@),
    {
        proof {
            use_type_invariant(&*self);
        }
        seg_push(&mut self.inner, command);
    }

    /// Takes the oldest queued token, or nothing when the queue is empty.
    /// Whatever comes out was pushed exactly once and leaves the queue for
    /// good, response channel still untouched.
    pub fn try_pop(&mut self) -> (r: Option<WorkerCommand>)
        ensures
            (match r {
                Some(command) => old(self).commands().len() > 0 && command@ == old(
                    self,
                ).commands()[0] && final(self).commands() =~= old(self).commands().drop_first()
                    && command@.trace =~= Seq::<EventModel>::empty(),
                None => old(self).commands().len() == 0 && final(self).commands() =~= old(
                    self,
                ).commands(),
            }),
    {
        proof {
            use_type_invariant(&*self);
        }
        seg_pop(&mut self.inner)
    }

    /// Law: draining the queue yields exactly the commands it held — each
    /// one exactly once, oldest first, none lost, none duplicated, none
    /// invented — and leaves it empty.
    pub fn drain(&mut self) -> (r: Vec<WorkerCommand>)
        ensures
            r@.len() == old(self).commands().len(),
            forall|i: int| #![auto] 0 <= i < r@.len() ==> r@[i]@ == old(self).commands()[i],
            final(self).commands() =~= Seq::<CommandModel>::empty(),
    {
        let ghost start = self.commands();
        let mut drained: Vec<WorkerCommand> = Vec::new();
        loop
            invariant
                start == old(self).commands(),
                drained@.len() + self.commands().len() == start.len(),
                forall|i: int| #![auto] 0 <= i < drained@.len() ==> drained@[i]@ == start[i],
                forall|j: int|
                    #![auto]
                    0 <= j < self.commands().len() ==> self.commands()[j] == start[drained@.len()
                        + j],
            decreases self.commands().len(),
        {
            match self.try_pop() {
                Some(command) => drained.push(command),
                None => {
                    return drained;
                },
            }
        }
    }
}

} // verus!
