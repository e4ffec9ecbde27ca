//! The worker: the one owner of the store. It serves commands in the order
//! in which the queue hands them out.

use vstd::prelude::*;
use crate::mailbox::{Mailbox, Received};
use crate::laws::lemma_prefix_stores;
use crate::protocol::{
    inserts_in, replies_to_all, reply_to, store_after, store_after_all, Command, Reply,
};
use crate::store::TicketStore;

verus! {

/// The two states of the worker. `Stopped` is final.
#[derive(Clone, Copy, Debug, PartialEq, Eq)]
pub enum WorkerState {
    Running,
    Stopped,
}

/// Serves one command on the store and returns the reply to publish, with
/// the command's own conduit. An insert stores the draft under the next
/// identifier; a lookup leaves the store as it is.
pub fn dispatch<I, G>(store: &mut TicketStore, command: Command<I, G>) -> (reply: Reply<I, G>)
    requires
        old(store).wf(),
        command is Insert ==> old(store)@.len() < u64::MAX,
    ensures
        final(store).wf(),
        final(store)@ == store_after(old(store)@, command),
        reply == reply_to(old(store)@, command),
{
    match command {
        Command::Insert { draft, response_channel } => {
            let id = store.add_ticket(draft);
            Reply::Inserted { id, response_channel }
        },
        Command::Get { id, response_channel } => {
            let ticket = match store.get(id) {
                Some(found) => Some(found.clone()),
                None => None,
            };
            Reply::Fetched { ticket, response_channel }
        },
    }
}

/// One turn of the worker, on what the receive gave. A command is served and
/// its reply returned for publishing; the worker keeps running, whether or
/// not that reply will find its reader. With nothing to receive the worker
/// keeps running where a sender is left, and stops where the queue is
/// closed; the store is then untouched.
pub fn step<I, G>(store: &mut TicketStore, received: Received<I, G>) -> (out: (
    WorkerState,
    Option<Reply<I, G>>,
))
    requires
        old(store).wf(),
        received matches Received::Command(command) ==> (command is Insert ==> old(store)@.len()
            < u64::MAX),
    ensures
        final(store).wf(),
        match received {
            Received::Command(command) => {
                &&& out.0 == WorkerState::Running
                &&& out.1 == Some(reply_to(old(store)@, command))
                &&& final(store)@ == store_after(old(store)@, command)
            },
            Received::Empty => {
                &&& out.0 == WorkerState::Running
                &&& out.1.is_none()
                &&& final(store)@ == old(store)@
            },
            Received::Closed => {
                &&& out.0 == WorkerState::Stopped
                &&& out.1.is_none()
                &&& final(store)@ == old(store)@
            },
        },
{
    match received {
        Received::Command(command) => (WorkerState::Running, Some(dispatch(store, command))),
        Received::Empty => (WorkerState::Running, None),
        Received::Closed => (WorkerState::Stopped, None),
    }
}

/// Runs the worker on the queue until it blocks or stops. It receives every
/// waiting command, oldest first, serves each on the store and collects the
/// replies in that order. It stops, and closes the receiving end, exactly
/// when the queue has run empty with no client handle left (or the receiving
/// end was closed before); otherwise it is still running, blocked in its
/// receive, and the next accepted command wakes it.
pub fn server<I, G>(receiver: &mut Mailbox<I, G>, store: &mut TicketStore) -> (out: (
    Vec<Reply<I, G>>,
    WorkerState,
))
    requires
        old(receiver).wf(),
        old(store).wf(),
        old(store)@.len() + inserts_in(old(receiver).pending()) <= u64::MAX,
    ensures
        final(receiver).wf(),
        final(store).wf(),
        final(store)@ == store_after_all(old(store)@, old(receiver).pending()),
        out.0@ == replies_to_all(old(store)@, old(receiver).pending()),
        final(receiver).pending().len() == 0,
        final(receiver).capacity() == old(receiver).capacity(),
        final(receiver).senders() == old(receiver).senders(),
        out.1 == WorkerState::Stopped <==> (old(receiver).senders() == 0 || !old(receiver).is_open()),
        final(receiver).is_open() == (old(receiver).is_open() && old(receiver).senders() > 0),
        final(receiver).is_waiting() == (out.1 == WorkerState::Running),
{
    let ghost commands = receiver.pending();
    let ghost before = store@;
    let mut replies: Vec<Reply<I, G>> = Vec::new();
    loop
        invariant
            receiver.wf(),
            store.wf(),
            commands == old(receiver).pending(),
            before == old(store)@,
            replies@.len() <= commands.len(),
            receiver.pending() == commands.skip(replies@.len() as int),
            store@ == store_after_all(before, commands.take(replies@.len() as int)),
            before.len() + inserts_in(commands) <= u64::MAX,
            receiver.capacity() == old(receiver).capacity(),
            receiver.senders() == old(receiver).senders(),
            receiver.is_open() == old(receiver).is_open(),
            forall|k: int|
                0 <= k < replies@.len() ==> replies@[k] == reply_to(
                    store_after_all(before, commands.take(k)),
                    #[trigger] commands[k],
                ),
        decreases receiver.pending().len(),
    {
        let ghost served = replies@.len() as int;
        let received = receiver.recv();
        proof {
            if received is Command {
                lemma_prefix_stores(before, commands, served, commands.len() as int);
                assert(commands.skip(served).drop_first() =~= commands.skip(served + 1));
            } else {
                assert(commands.take(served) =~= commands);
                assert(replies@ =~= replies_to_all(before, commands));
            }
        }
        let (state, reply) = step(store, received);
        match reply {
            Some(reply) => {
                replies.push(reply);
            },
            None => {
                match state {
                    WorkerState::Running => {},
                    WorkerState::Stopped => {
                        receiver.close();
                    },
                }
                return (replies, state);
            },
        }
    }
}

} // verus!
