//! The commands that callers send, the replies that the worker publishes,
//! and what serving a command means for the store.

use vstd::prelude::*;
use crate::data::{filed, Ticket, TicketDraft, TicketId};
use crate::store::{lookup, next_id};

verus! {

/// A request to the worker. Each one carries its input and the sending side
/// of the one-shot conduit on which its reply is expected: `I` for an
/// identifier, `G` for the result of a lookup.
#[derive(Debug, PartialEq, Eq)]
#[allow(inconsistent_fields)]
pub enum Command<I, G> {
    Insert { draft: TicketDraft, response_channel: I },
    Get { id: TicketId, response_channel: G },
}

/// What the worker publishes for one command, and the conduit to publish it
/// on.
#[derive(Debug, PartialEq, Eq)]
#[allow(inconsistent_fields)]
pub enum Reply<I, G> {
    Inserted { id: TicketId, response_channel: I },
    Fetched { ticket: Option<Ticket>, response_channel: G },
}

/// Why a submission was refused. Either way the input comes back.
#[derive(Debug, PartialEq, Eq)]
pub enum TrySendError<T> {
    /// The queue had no free slot.
    Full(T),
    /// The worker's end of the queue is closed.
    Disconnected(T),
}

impl<T> TrySendError<T> {
    /// The input that was refused.
    pub open spec fn payload(self) -> T {
        match self {
            TrySendError::Full(value) => value,
            TrySendError::Disconnected(value) => value,
        }
    }

    /// Whether the refusal was for want of a free slot.
    pub fn is_full(&self) -> (full: bool)
        ensures
            full == (*self is Full),
    {
        match self {
            TrySendError::Full(_) => true,
            TrySendError::Disconnected(_) => false,
        }
    }

    /// Hands the refused input back.
    pub fn into_inner(self) -> (value: T)
        ensures
            value == self.payload(),
    {
        match self {
            TrySendError::Full(value) => value,
            TrySendError::Disconnected(value) => value,
        }
    }
}

/// The store's tickets after one command was served.
pub open spec fn store_after<I, G>(tickets: Seq<Ticket>, command: Command<I, G>) -> Seq<Ticket> {
    match command {
        Command::Insert { draft, .. } => tickets.push(filed(draft, next_id(tickets))),
        Command::Get { .. } => tickets,
    }
}

/// The reply to one command that is served on a store with these tickets.
/// The conduit is taken from the command as it is.
pub open spec fn reply_to<I, G>(tickets: Seq<Ticket>, command: Command<I, G>) -> Reply<I, G> {
    match command {
        Command::Insert { response_channel, .. } => Reply::Inserted {
            id: next_id(tickets),
            response_channel,
        },
        Command::Get { id, response_channel } => Reply::Fetched {
            ticket: lookup(tickets, id),
            response_channel,
        },
    }
}

/// The store's tickets after the commands were served one by one, first to
/// last.
pub open spec fn store_after_all<I, G>(tickets: Seq<Ticket>, commands: Seq<Command<I, G>>) -> Seq<
    Ticket,
>
    decreases commands.len(),
{
    if commands.len() == 0 {
        tickets
    } else {
        store_after(store_after_all(tickets, commands.drop_last()), commands.last())
    }
}

/// The replies to the commands, in their order: the reply at position `k` is
/// given by the store as it stands after the first `k` commands.
pub open spec fn replies_to_all<I, G>(tickets: Seq<Ticket>, commands: Seq<Command<I, G>>) -> Seq<
    Reply<I, G>,
> {
    Seq::new(
        commands.len(),
        |k: int| reply_to(store_after_all(tickets, commands.take(k)), commands[k]),
    )
}

/// How many of the commands are inserts.
pub open spec fn inserts_in<I, G>(commands: Seq<Command<I, G>>) -> nat
    decreases commands.len(),
{
    if commands.len() == 0 {
        0
    } else {
        inserts_in(commands.drop_last()) + if commands.last() is Insert {
            1nat
        } else {
            0nat
        }
    }
}

} // verus!
