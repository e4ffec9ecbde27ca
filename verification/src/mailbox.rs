//! The bounded request queue between the client handles and the worker.

use vstd::prelude::*;
use std::collections::VecDeque;
use crate::protocol::{Command, TrySendError};

verus! {

/// The request queue: at most `capacity` commands wait in it, first in,
/// first out. It also knows how many client handles are alive, whether the
/// worker still holds the receiving end, and whether the worker is blocked
/// in a receive. A queue without slots is a rendezvous: it takes a command
/// only from a submission that finds the worker blocked in its receive, and
/// holds that one command until the worker has taken it.
pub struct Mailbox<I, G> {
    capacity: usize,
    queue: VecDeque<Command<I, G>>,
    senders: usize,
    receiver_open: bool,
    receiver_waiting: bool,
}

/// What a receive on the queue gives.
#[derive(Debug, PartialEq, Eq)]
pub enum Received<I, G> {
    /// The oldest waiting command.
    Command(Command<I, G>),
    /// Nothing waits, but a client handle is alive: the worker blocks.
    Empty,
    /// Nothing waits and no sender is left, or the receiving end is closed.
    Closed,
}

/// The most commands that a queue of `capacity` slots ever holds: one for
/// each slot, and one in hand-over where there is no slot.
pub open spec fn most_pending(capacity: nat) -> nat {
    if capacity == 0 {
        1
    } else {
        capacity
    }
}

/// How many more commands an open queue takes before it refuses: the free
/// slots, or, where there is no slot, one when the worker is blocked in its
/// receive with nothing handed over, and none otherwise.
pub open spec fn room<C>(capacity: nat, waiting: bool, pending: Seq<C>) -> nat {
    if capacity == 0 {
        if waiting && pending.len() == 0 {
            1
        } else {
            0
        }
    } else if pending.len() <= capacity {
        (capacity - pending.len()) as nat
    } else {
        0
    }
}

/// What waits in an open queue after `command` was submitted to it: the
/// command goes last where there is room, and nowhere where there is none.
pub open spec fn pending_after_offer<C>(
    capacity: nat,
    waiting: bool,
    pending: Seq<C>,
    command: C,
) -> Seq<C> {
    if room(capacity, waiting, pending) > 0 {
        pending.push(command)
    } else {
        pending
    }
}

/// What waits in an open queue after the commands in `offered` were
/// submitted one after the other, with no receive in between. Only the first
/// of them can find the worker blocked in its receive: an accepted command
/// wakes it.
pub open spec fn pending_after_offers<C>(
    capacity: nat,
    waiting: bool,
    pending: Seq<C>,
    offered: Seq<C>,
) -> Seq<C>
    decreases offered.len(),
{
    if offered.len() == 0 {
        pending
    } else {
        pending_after_offer(
            capacity,
            waiting && offered.len() == 1,
            pending_after_offers(capacity, waiting, pending, offered.drop_last()),
            offered.last(),
        )
    }
}

impl<I, G> Mailbox<I, G> {
    /// The number of slots.
    pub closed spec fn capacity(&self) -> nat {
        self.capacity as nat
    }

    /// The commands that were accepted and not yet received, oldest first.
    pub closed spec fn pending(&self) -> Seq<Command<I, G>> {
        self.queue@
    }

    /// The number of client handles that are alive.
    pub closed spec fn senders(&self) -> nat {
        self.senders as nat
    }

    /// Whether the worker still holds the receiving end.
    pub closed spec fn is_open(&self) -> bool {
        self.receiver_open
    }

    /// Whether the worker is blocked in a receive: its last receive found
    /// nothing, and nothing was accepted since.
    pub closed spec fn is_waiting(&self) -> bool {
        self.receiver_waiting
    }

    /// The queue's invariant: no more commands wait than there are slots
    /// (one in hand-over where there is no slot), none waits while the
    /// worker is blocked in its receive or once the receiving end is closed,
    /// and only an open receiving end has a worker blocked on it.
    pub open spec fn wf(&self) -> bool {
        &&& self.pending().len() <= most_pending(self.capacity())
        &&& self.is_waiting() ==> self.pending().len() == 0 && self.is_open()
        &&& !self.is_open() ==> self.pending().len() == 0
    }

    /// Whether a submission would be accepted now.
    pub open spec fn admits(&self) -> bool {
        self.is_open() && room(self.capacity(), self.is_waiting(), self.pending()) > 0
    }

    /// An empty queue with `capacity` slots, one client handle and an open
    /// receiving end on which the worker does not block yet.
    pub fn new(capacity: usize) -> (mailbox: Self)
        ensures
            mailbox.wf(),
            mailbox.capacity() == capacity,
            mailbox.pending() == Seq::<Command<I, G>>::empty(),
            mailbox.senders() == 1,
            mailbox.is_open(),
            !mailbox.is_waiting(),
    {
        Mailbox {
            capacity,
            queue: VecDeque::new(),
            senders: 1,
            receiver_open: true,
            receiver_waiting: false,
        }
    }

    /// The number of slots.
    pub fn slots(&self) -> (n: usize)
        ensures
            n == self.capacity(),
    {
        self.capacity
    }

    /// The number of commands that wait.
    pub fn len(&self) -> (n: usize)
        ensures
            n == self.pending().len(),
    {
        self.queue.len()
    }

    /// The number of client handles that are alive.
    pub fn handles(&self) -> (n: usize)
        ensures
            n == self.senders(),
    {
        self.senders
    }

    /// Whether the worker still holds the receiving end.
    pub fn receiver_alive(&self) -> (open: bool)
        ensures
            open == self.is_open(),
    {
        self.receiver_open
    }

    /// Whether the worker is blocked in a receive.
    pub fn receiver_waiting(&self) -> (waiting: bool)
        ensures
            waiting == self.is_waiting(),
    {
        self.receiver_waiting
    }

    /// Hands the command to the queue without waiting. A closed receiving
    /// end refuses it as `Disconnected`, a queue without room as `Full`; the
    /// command comes back in the error and the queue stays as it was. An
    /// accepted command goes last and wakes the worker.
    pub fn try_send(&mut self, command: Command<I, G>) -> (sent: Result<
        (),
        TrySendError<Command<I, G>>,
    >)
        requires
            old(self).wf(),
        ensures
            final(self).wf(),
            final(self).capacity() == old(self).capacity(),
            final(self).senders() == old(self).senders(),
            final(self).is_open() == old(self).is_open(),
            sent is Ok <==> old(self).admits(),
            sent is Ok ==> final(self).pending() == old(self).pending().push(command)
                && !final(self).is_waiting(),
            sent is Err ==> final(self).pending() == old(self).pending(),
            sent is Err ==> final(self).is_waiting() == old(self).is_waiting(),
            old(self).is_open() ==> final(self).pending() == pending_after_offer(
                old(self).capacity(),
                old(self).is_waiting(),
                old(self).pending(),
                command,
            ),
            sent is Err ==> sent->Err_0.payload() == command,
            sent is Err ==> (sent->Err_0 is Disconnected <==> !old(self).is_open()),
    {
        if !self.receiver_open {
            Err(TrySendError::Disconnected(command))
        } else if self.queue.len() < self.capacity || (self.capacity == 0 && self.receiver_waiting) {
            self.queue.push_back(command);
            self.receiver_waiting = false;
            Ok(())
        } else {
            Err(TrySendError::Full(command))
        }
    }

    /// Takes the oldest waiting command. Where none waits, says whether the
    /// worker blocks (`Empty`) or can stop (`Closed`); the queue's commands
    /// are then unchanged. The worker is blocked in its receive exactly
    /// after `Empty`.
    pub fn recv(&mut self) -> (received: Received<I, G>)
        requires
            old(self).wf(),
        ensures
            final(self).wf(),
            final(self).capacity() == old(self).capacity(),
            final(self).senders() == old(self).senders(),
            final(self).is_open() == old(self).is_open(),
            final(self).is_waiting() == (received is Empty),
            match received {
                Received::Command(command) => {
                    &&& old(self).pending().len() > 0
                    &&& command == old(self).pending()[0]
                    &&& final(self).pending() == old(self).pending().drop_first()
                },
                Received::Empty => {
                    &&& old(self).pending().len() == 0
                    &&& old(self).is_open()
                    &&& old(self).senders() > 0
                    &&& final(self).pending() == old(self).pending()
                },
                Received::Closed => {
                    &&& old(self).pending().len() == 0
                    &&& (!old(self).is_open() || old(self).senders() == 0)
                    &&& final(self).pending() == old(self).pending()
                },
            },
    {
        match self.queue.pop_front() {
            Some(command) => {
                self.receiver_waiting = false;
                Received::Command(command)
            },
            None => if self.receiver_open && self.senders > 0 {
                self.receiver_waiting = true;
                Received::Empty
            } else {
                self.receiver_waiting = false;
                Received::Closed
            },
        }
    }

    /// Counts one more client handle. Nothing changes once the count has
    /// reached the largest number the machine holds.
    pub fn add_sender(&mut self)
        ensures
            final(self).capacity() == old(self).capacity(),
            final(self).pending() == old(self).pending(),
            final(self).is_open() == old(self).is_open(),
            final(self).is_waiting() == old(self).is_waiting(),
            final(self).senders() == if old(self).senders() < usize::MAX {
                old(self).senders() + 1
            } else {
                old(self).senders()
            },
    {
        if self.senders < usize::MAX {
            self.senders = self.senders + 1;
        }
    }

    /// Counts one client handle less; at zero nothing changes.
    pub fn drop_sender(&mut self)
        ensures
            final(self).capacity() == old(self).capacity(),
            final(self).pending() == old(self).pending(),
            final(self).is_open() == old(self).is_open(),
            final(self).is_waiting() == old(self).is_waiting(),
            final(self).senders() == if old(self).senders() > 0 {
                old(self).senders() - 1
            } else {
                0
            },
    {
        if self.senders > 0 {
            self.senders = self.senders - 1;
        }
    }

    /// Closes the receiving end: the worker is gone. What still waited is
    /// discarded, and every later submission is refused as `Disconnected`.
    pub fn close(&mut self)
        ensures
            final(self).wf(),
            final(self).capacity() == old(self).capacity(),
            final(self).senders() == old(self).senders(),
            !final(self).is_open(),
            !final(self).is_waiting(),
            final(self).pending() == Seq::<Command<I, G>>::empty(),
    {
        self.queue.clear();
        self.receiver_open = false;
        self.receiver_waiting = false;
    }
}

} // verus!
