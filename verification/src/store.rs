//! The ticket store: it numbers tickets from 1 in the order of their arrival.

use vstd::prelude::*;
use crate::data::{filed, Ticket, TicketDraft, TicketId};

verus! {

/// The tickets of a store are numbered when the one at position `i` carries
/// the identifier `i + 1`.
pub open spec fn numbered(tickets: Seq<Ticket>) -> bool {
    forall|i: int| 0 <= i < tickets.len() ==> (#[trigger] tickets[i]).id.0 == i + 1
}

/// The identifier that the next stored ticket gets.
pub open spec fn next_id(tickets: Seq<Ticket>) -> TicketId {
    TicketId((tickets.len() + 1) as u64)
}

/// The ticket stored under `id`, if that identifier was given out.
pub open spec fn lookup(tickets: Seq<Ticket>, id: TicketId) -> Option<Ticket> {
    if 1 <= id.0 <= tickets.len() {
        Some(tickets[id.0 - 1])
    } else {
        None
    }
}

/// The tickets, in the order in which they were stored.
pub struct TicketStore {
    tickets: Vec<Ticket>,
}

impl View for TicketStore {
    type V = Seq<Ticket>;

    closed spec fn view(&self) -> Seq<Ticket> {
        self.tickets@
    }
}

impl TicketStore {
    /// The store's invariant: its tickets are numbered from 1 without a gap.
    pub open spec fn wf(&self) -> bool {
        numbered(self@)
    }

    /// An empty store.
    pub fn new() -> (store: Self)
        ensures
            store.wf(),
            store@ == Seq::<Ticket>::empty(),
    {
        TicketStore { tickets: Vec::new() }
    }

    /// The number of tickets stored.
    pub fn len(&self) -> (n: usize)
        ensures
            n == self@.len(),
    {
        self.tickets.len()
    }

    /// Whether the next identifier still fits the identifier type.
    pub fn has_room(&self) -> (room: bool)
        ensures
            room == (self@.len() < u64::MAX),
    {
        (self.tickets.len() as u64) < u64::MAX
    }

    /// Stores the draft under the next identifier and returns that identifier.
    pub fn add_ticket(&mut self, draft: TicketDraft) -> (id: TicketId)
        requires
            old(self).wf(),
            old(self)@.len() < u64::MAX,
        ensures
            final(self).wf(),
            id == next_id(old(self)@),
            final(self)@ == old(self)@.push(filed(draft, id)),
    {
        let n: usize = self.tickets.len();
        let id = TicketId(n as u64 + 1);
        self.tickets.push(Ticket::file(draft, id));
        id
    }

    /// The ticket stored under `id`; `None` where that identifier was never
    /// given out.
    pub fn get(&self, id: TicketId) -> (found: Option<&Ticket>)
        requires
            self.wf(),
        ensures
            match found {
                Some(ticket) => lookup(self@, id) == Some(*ticket),
                None => lookup(self@, id).is_none(),
            },
    {
        if id.0 == 0 {
            return None;
        }
        let k: u64 = id.0 - 1;
        if k < self.tickets.len() as u64 {
            Some(&self.tickets[k as usize])
        } else {
            None
        }
    }
}

} // verus!
