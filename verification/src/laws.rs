//! What holds of every run of the worker, whatever the callers send and in
//! whatever order the queue accepted it.

use vstd::prelude::*;
use crate::data::{filed, Ticket, TicketId};
use crate::mailbox::{most_pending, pending_after_offers, room};
use crate::protocol::{inserts_in, replies_to_all, store_after, store_after_all, Command};
use crate::store::{lookup, next_id, numbered};

verus! {

/// Backpressure: when commands are submitted to an open queue one after the
/// other and the worker receives none of them, the queue takes exactly as
/// many as it had room for at the start, in their order, and nothing after
/// them. So the submission at position `k`, counted from 0, is accepted
/// exactly when `k` is below that room: with `c` free slots the first `c` are
/// accepted and the next one is refused; without slots one is accepted where
/// the worker was blocked in its receive, and none where it was not.
pub proof fn lemma_backpressure<C>(
    capacity: nat,
    waiting: bool,
    pending: Seq<C>,
    offered: Seq<C>,
    k: int,
)
    requires
        pending.len() <= most_pending(capacity),
        waiting ==> pending.len() == 0,
        0 <= k <= offered.len(),
    ensures
        pending_after_offers(capacity, waiting, pending, offered.take(k)) == pending
            + offered.take(
            if k <= room(capacity, waiting, pending) {
                k
            } else {
                room(capacity, waiting, pending) as int
            },
        ),
        room(
            capacity,
            waiting && k == 0,
            pending_after_offers(capacity, waiting, pending, offered.take(k)),
        ) > 0 <==> k < room(capacity, waiting, pending),
    decreases k,
{
    let free = room(capacity, waiting, pending) as int;
    if k == 0 {
        assert(pending + offered.take(0) =~= pending);
    } else {
        lemma_backpressure(capacity, waiting, pending, offered, k - 1);
        assert(offered.take(k).drop_last() =~= offered.take(k - 1));
        assert(offered.take(k).last() == offered[k - 1]);
        if k <= free {
            assert((pending + offered.take(k - 1)).push(offered[k - 1]) =~= pending + offered.take(
                k,
            ));
        }
    }
}

/// Serving two batches one after the other is serving them as one.
pub proof fn lemma_batches_compose<I, G>(
    tickets: Seq<Ticket>,
    first: Seq<Command<I, G>>,
    second: Seq<Command<I, G>>,
)
    ensures
        store_after_all(tickets, first + second) == store_after_all(
            store_after_all(tickets, first),
            second,
        ),
    decreases second.len(),
{
    if second.len() == 0 {
        assert(first + second =~= first);
    } else {
        lemma_batches_compose(tickets, first, second.drop_last());
        assert((first + second).drop_last() =~= first + second.drop_last());
    }
}

/// Serving commands never touches a ticket that is already stored, and adds
/// exactly one ticket for each insert.
pub proof fn lemma_store_only_grows<I, G>(tickets: Seq<Ticket>, commands: Seq<Command<I, G>>)
    ensures
        store_after_all(tickets, commands).len() == tickets.len() + inserts_in(commands),
        inserts_in(commands) <= commands.len(),
        forall|i: int|
            0 <= i < tickets.len() ==> #[trigger] store_after_all(tickets, commands)[i]
                == tickets[i],
    decreases commands.len(),
{
    if commands.len() > 0 {
        lemma_store_only_grows(tickets, commands.drop_last());
    }
}

/// A store whose tickets are numbered from 1 stays so under any commands, as
/// long as the identifiers fit: every stored ticket carries its own
/// identifier, so no two carry the same.
pub proof fn lemma_store_stays_numbered<I, G>(tickets: Seq<Ticket>, commands: Seq<Command<I, G>>)
    requires
        numbered(tickets),
        tickets.len() + inserts_in(commands) <= u64::MAX,
    ensures
        numbered(store_after_all(tickets, commands)),
    decreases commands.len(),
{
    if commands.len() > 0 {
        lemma_store_stays_numbered(tickets, commands.drop_last());
        lemma_store_only_grows(tickets, commands.drop_last());
        lemma_store_only_grows(tickets, commands);
    }
}

/// The store on which the command at position `k` is served is the one that
/// the first `k` commands left. From there on it only grows: what a longer
/// prefix leaves holds everything that a shorter one left, unchanged.
pub proof fn lemma_prefix_stores<I, G>(
    tickets: Seq<Ticket>,
    commands: Seq<Command<I, G>>,
    k: int,
    m: int,
)
    requires
        0 <= k < m <= commands.len(),
    ensures
        store_after_all(tickets, commands.take(k + 1)) == store_after(
            store_after_all(tickets, commands.take(k)),
            commands[k],
        ),
        store_after_all(tickets, commands.take(k + 1)).len() <= store_after_all(
            tickets,
            commands.take(m),
        ).len(),
        store_after_all(tickets, commands.take(m)).len() <= tickets.len() + inserts_in(commands),
        forall|i: int|
            0 <= i < store_after_all(tickets, commands.take(k + 1)).len()
                ==> #[trigger] store_after_all(tickets, commands.take(m))[i] == store_after_all(
                tickets,
                commands.take(k + 1),
            )[i],
{
    let head = commands.take(k + 1);
    let tail = commands.subrange(k + 1, m);
    let rest = commands.skip(m);
    assert(head.drop_last() =~= commands.take(k));
    assert(head + tail =~= commands.take(m));
    assert(commands.take(m) + rest =~= commands);
    lemma_batches_compose(tickets, head, tail);
    lemma_batches_compose(tickets, commands.take(m), rest);
    lemma_store_only_grows(store_after_all(tickets, head), tail);
    lemma_store_only_grows(store_after_all(tickets, commands.take(m)), rest);
    lemma_store_only_grows(tickets, commands);
}

/// Serialization: whatever commands the callers sent, and in whatever order
/// the queue accepted them, two inserts never get the same identifier.
pub proof fn lemma_identifiers_unique<I, G>(
    tickets: Seq<Ticket>,
    commands: Seq<Command<I, G>>,
    i: int,
    j: int,
)
    requires
        tickets.len() + inserts_in(commands) <= u64::MAX,
        0 <= i < j < commands.len(),
        commands[i] is Insert,
        commands[j] is Insert,
    ensures
        replies_to_all(tickets, commands)[i]->id != replies_to_all(tickets, commands)[j]->id,
{
    lemma_prefix_stores(tickets, commands, i, j);
    lemma_prefix_stores(tickets, commands, j, commands.len() as int);
}

/// Serialization: the store ends as if each insert had been applied exactly
/// once, in the order of acceptance. It holds one more ticket for each
/// insert, what it held before is untouched, and the draft of each insert is
/// stored under the identifier that the insert was answered with.
pub proof fn lemma_each_insert_applied_once<I, G>(
    tickets: Seq<Ticket>,
    commands: Seq<Command<I, G>>,
    k: int,
)
    requires
        tickets.len() + inserts_in(commands) <= u64::MAX,
        0 <= k < commands.len(),
        commands[k] is Insert,
    ensures
        store_after_all(tickets, commands).len() == tickets.len() + inserts_in(commands),
        lookup(store_after_all(tickets, commands), replies_to_all(tickets, commands)[k]->id)
            == Some(filed(commands[k]->draft, replies_to_all(tickets, commands)[k]->id)),
{
    lemma_store_only_grows(tickets, commands);
    assert(commands.take(commands.len() as int) =~= commands);
    lemma_read_your_write(tickets, commands, k, commands.len() as int);
}

/// Read your write: once an insert was answered with an identifier, the
/// store holds the inserted ticket under it from then on, whatever is served
/// afterwards.
pub proof fn lemma_read_your_write<I, G>(
    tickets: Seq<Ticket>,
    commands: Seq<Command<I, G>>,
    k: int,
    m: int,
)
    requires
        tickets.len() + inserts_in(commands) <= u64::MAX,
        0 <= k < m <= commands.len(),
        commands[k] is Insert,
    ensures
        lookup(store_after_all(tickets, commands.take(m)), replies_to_all(tickets, commands)[k]->id)
            == Some(filed(commands[k]->draft, replies_to_all(tickets, commands)[k]->id)),
{
    lemma_prefix_stores(tickets, commands, k, m);
    lemma_prefix_stores(tickets, commands, k, commands.len() as int);
    let at_k = store_after_all(tickets, commands.take(k));
    let after_k = store_after_all(tickets, commands.take(k + 1));
    assert(after_k[at_k.len() as int] == filed(commands[k]->draft, next_id(at_k)));
}

/// Read your write, as a caller sees it: a lookup that is accepted after an
/// insert was answered, and asks for the identifier of that answer, is
/// answered with the inserted ticket.
pub proof fn lemma_lookup_after_insert<I, G>(
    tickets: Seq<Ticket>,
    commands: Seq<Command<I, G>>,
    k: int,
    m: int,
)
    requires
        tickets.len() + inserts_in(commands) <= u64::MAX,
        0 <= k < m < commands.len(),
        commands[k] is Insert,
        commands[m] is Get,
        commands[m]->id == replies_to_all(tickets, commands)[k]->id,
    ensures
        replies_to_all(tickets, commands)[m]->ticket == Some(
            filed(commands[k]->draft, commands[m]->id),
        ),
{
    lemma_read_your_write(tickets, commands, k, m);
}

/// Every ticket that serving added to the store was put there by an insert,
/// and has the identifier that this insert was answered with.
pub proof fn lemma_every_ticket_was_issued<I, G>(
    tickets: Seq<Ticket>,
    commands: Seq<Command<I, G>>,
    id: TicketId,
)
    requires
        tickets.len() + inserts_in(commands) <= u64::MAX,
        lookup(tickets, id).is_none(),
        lookup(store_after_all(tickets, commands), id).is_some(),
    ensures
        exists|k: int|
            0 <= k < commands.len() && (#[trigger] commands[k]) is Insert && replies_to_all(
                tickets,
                commands,
            )[k]->id == id,
    decreases commands.len(),
{
    let shorter = commands.drop_last();
    let before_last = store_after_all(tickets, shorter);
    lemma_store_only_grows(tickets, shorter);
    lemma_store_only_grows(tickets, commands);
    if lookup(before_last, id).is_some() {
        lemma_every_ticket_was_issued(tickets, shorter, id);
        let k = choose|k: int|
            0 <= k < shorter.len() && (#[trigger] shorter[k]) is Insert && replies_to_all(
                tickets,
                shorter,
            )[k]->id == id;
        assert(shorter.take(k) =~= commands.take(k));
        assert(commands[k] is Insert);
    } else {
        let k = commands.len() - 1;
        assert(commands.take(k) =~= shorter);
        assert(commands[k] is Insert);
    }
}

/// Lookup miss: an identifier that the store did not hold at the start and
/// that no insert was answered with is absent from the store, whatever was
/// served; the lookup is answered, with `None`.
pub proof fn lemma_lookup_miss<I, G>(
    tickets: Seq<Ticket>,
    commands: Seq<Command<I, G>>,
    id: TicketId,
)
    requires
        tickets.len() + inserts_in(commands) <= u64::MAX,
        lookup(tickets, id).is_none(),
        forall|k: int|
            0 <= k < commands.len() && (#[trigger] commands[k]) is Insert ==> replies_to_all(
                tickets,
                commands,
            )[k]->id != id,
    ensures
        lookup(store_after_all(tickets, commands), id).is_none(),
{
    if lookup(store_after_all(tickets, commands), id).is_some() {
        lemma_every_ticket_was_issued(tickets, commands, id);
    }
}

} // verus!
