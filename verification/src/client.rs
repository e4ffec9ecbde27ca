//! The client handle: what callers hold to submit commands.

use vstd::prelude::*;
use crate::data::{Ticket, TicketDraft, TicketId};
use crate::mailbox::{pending_after_offer, Mailbox};
use crate::protocol::{Command, TrySendError};
use crate::store::TicketStore;

verus! {

/// A handle to the request queue. Handles are cheap to hand out; each one
/// remembers the capacity that the queue was made with. The queue itself
/// enforces the bound.
#[derive(Debug, PartialEq, Eq)]
pub struct TicketStoreClient {
    channel_capacity: usize,
}

/// Gives the draft of a refused insert back to its caller, under the same
/// kind of refusal.
pub fn returned_draft<I, G>(error: TrySendError<Command<I, G>>) -> (refusal: TrySendError<
    TicketDraft,
>)
    requires
        error.payload() is Insert,
    ensures
        refusal is Full <==> error is Full,
        refusal.payload() == error.payload()->draft,
{
    match error {
        TrySendError::Full(Command::Insert { draft, .. }) => TrySendError::Full(draft),
        TrySendError::Disconnected(Command::Insert { draft, .. }) => TrySendError::Disconnected(
            draft,
        ),
        _ => vstd::pervasive::unreached(),
    }
}

/// Gives the identifier of a refused lookup back to its caller, under the
/// same kind of refusal.
pub fn returned_id<I, G>(error: TrySendError<Command<I, G>>) -> (refusal: TrySendError<TicketId>)
    requires
        error.payload() is Get,
    ensures
        refusal is Full <==> error is Full,
        refusal.payload() == error.payload()->id,
{
    match error {
        TrySendError::Full(Command::Get { id, .. }) => TrySendError::Full(id),
        TrySendError::Disconnected(Command::Get { id, .. }) => TrySendError::Disconnected(id),
        _ => vstd::pervasive::unreached(),
    }
}

/// What a caller has after its wait on the reply conduit: the reply where
/// one came, and, where the conduit was dropped unanswered, the refusal
/// `Disconnected` with the caller's input.
pub fn awaited<R, T>(reply: Option<R>, input: T) -> (outcome: Result<R, TrySendError<T>>)
    ensures
        outcome == match reply {
            Some(value) => Ok::<R, TrySendError<T>>(value),
            None => Err(TrySendError::Disconnected(input)),
        },
{
    match reply {
        Some(value) => Ok(value),
        None => Err(TrySendError::Disconnected(input)),
    }
}

impl TicketStoreClient {
    /// The capacity that the handle's queue was made with.
    pub closed spec fn capacity(&self) -> nat {
        self.channel_capacity as nat
    }

    /// The capacity that the handle's queue was made with.
    pub fn channel_capacity(&self) -> (n: usize)
        ensures
            n == self.capacity(),
    {
        self.channel_capacity
    }

    /// Submits a draft for storing, with the conduit on which the identifier
    /// is expected, without waiting. The command is accepted exactly when the
    /// receiving end is open and the queue has room: a free slot, or, in a
    /// queue without slots, the worker blocked in its receive. It then waits
    /// last in the queue. A queue without room refuses with `Full`, a closed
    /// receiving end with `Disconnected`: the draft comes back unchanged and
    /// the queue stays as it was.
    pub fn insert<I, G>(
        &self,
        sender: &mut Mailbox<I, G>,
        draft: TicketDraft,
        response_channel: I,
    ) -> (sent: Result<(), TrySendError<TicketDraft>>)
        requires
            old(sender).wf(),
        ensures
            final(sender).wf(),
            final(sender).capacity() == old(sender).capacity(),
            final(sender).senders() == old(sender).senders(),
            final(sender).is_open() == old(sender).is_open(),
            sent is Ok <==> old(sender).admits(),
            sent is Ok ==> final(sender).pending() == old(sender).pending().push(
                Command::Insert { draft, response_channel },
            ) && !final(sender).is_waiting(),
            sent is Err ==> final(sender).pending() == old(sender).pending(),
            sent is Err ==> final(sender).is_waiting() == old(sender).is_waiting(),
            old(sender).is_open() ==> final(sender).pending() == pending_after_offer(
                old(sender).capacity(),
                old(sender).is_waiting(),
                old(sender).pending(),
                Command::Insert { draft, response_channel },
            ),
            sent is Err ==> sent->Err_0.payload() == draft,
            sent is Err ==> (sent->Err_0 is Disconnected <==> !old(sender).is_open()),
    {
        match sender.try_send(Command::Insert { draft, response_channel }) {
            Ok(()) => Ok(()),
            Err(error) => Err(returned_draft(error)),
        }
    }

    /// Submits a lookup, with the conduit on which its result is expected,
    /// without waiting. Acceptance and refusal are as for `insert`; a refusal
    /// hands the identifier back.
    pub fn get<I, G>(&self, sender: &mut Mailbox<I, G>, id: TicketId, response_channel: G) -> (sent:
        Result<(), TrySendError<TicketId>>)
        requires
            old(sender).wf(),
        ensures
            final(sender).wf(),
            final(sender).capacity() == old(sender).capacity(),
            final(sender).senders() == old(sender).senders(),
            final(sender).is_open() == old(sender).is_open(),
            sent is Ok <==> old(sender).admits(),
            sent is Ok ==> final(sender).pending() == old(sender).pending().push(
                Command::Get { id, response_channel },
            ) && !final(sender).is_waiting(),
            sent is Err ==> final(sender).pending() == old(sender).pending(),
            sent is Err ==> final(sender).is_waiting() == old(sender).is_waiting(),
            old(sender).is_open() ==> final(sender).pending() == pending_after_offer(
                old(sender).capacity(),
                old(sender).is_waiting(),
                old(sender).pending(),
                Command::Get { id, response_channel },
            ),
            sent is Err ==> sent->Err_0.payload() == id,
            sent is Err ==> (sent->Err_0 is Disconnected <==> !old(sender).is_open()),
    {
        match sender.try_send(Command::Get { id, response_channel }) {
            Ok(()) => Ok(()),
            Err(error) => Err(returned_id(error)),
        }
    }

    /// Hands out one more handle to the same queue.
    pub fn share<I, G>(&self, sender: &mut Mailbox<I, G>) -> (handle: TicketStoreClient)
        ensures
            handle == *self,
            final(sender).capacity() == old(sender).capacity(),
            final(sender).pending() == old(sender).pending(),
            final(sender).is_open() == old(sender).is_open(),
            final(sender).is_waiting() == old(sender).is_waiting(),
            final(sender).senders() == if old(sender).senders() < usize::MAX {
                old(sender).senders() + 1
            } else {
                old(sender).senders()
            },
    {
        sender.add_sender();
        TicketStoreClient { channel_capacity: self.channel_capacity }
    }

    /// Gives the handle up. When the last one is gone, the worker stops as
    /// soon as the queue has run empty.
    pub fn release<I, G>(self, sender: &mut Mailbox<I, G>)
        ensures
            final(sender).capacity() == old(sender).capacity(),
            final(sender).pending() == old(sender).pending(),
            final(sender).is_open() == old(sender).is_open(),
            final(sender).is_waiting() == old(sender).is_waiting(),
            final(sender).senders() == if old(sender).senders() > 0 {
                old(sender).senders() - 1
            } else {
                0
            },
    {
        sender.drop_sender();
    }
}

/// Makes the request queue with `capacity` slots, the first handle to it,
/// and the empty store that the worker starts from. The queue is empty, its
/// receiving end open for the worker, which has not yet blocked on it. With
/// no slot the queue is a rendezvous.
pub fn launch<I, G>(capacity: usize) -> (out: (TicketStoreClient, Mailbox<I, G>, TicketStore))
    ensures
        out.0.capacity() == capacity,
        out.1.wf(),
        out.1.capacity() == capacity,
        out.1.pending() == Seq::<Command<I, G>>::empty(),
        out.1.senders() == 1,
        out.1.is_open(),
        !out.1.is_waiting(),
        out.2.wf(),
        out.2@ == Seq::<Ticket>::empty(),
{
    (TicketStoreClient { channel_capacity: capacity }, Mailbox::new(capacity), TicketStore::new())
}

} // verus!
