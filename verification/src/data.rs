//! The values that travel through the mailbox: drafts, tickets, identifiers.

use vstd::prelude::*;

verus! {

/// The identifier that the store assigns to a ticket.
#[derive(Clone, Copy, Debug, PartialEq, Eq, Hash)]
pub struct TicketId(pub u64);

/// Where a ticket stands.
#[derive(Clone, Copy, Debug, PartialEq, Eq)]
pub enum Status {
    ToDo,
    InProgress,
    Done,
}

/// What a caller hands in: a ticket that has no identifier yet.
#[derive(Debug, PartialEq, Eq)]
pub struct TicketDraft {
    pub title: String,
    pub description: String,
}

/// A stored ticket.
#[derive(Debug, PartialEq, Eq)]
pub struct Ticket {
    pub id: TicketId,
    pub title: String,
    pub description: String,
    pub status: Status,
}

/// The ticket that a draft becomes when it is stored under `id`: the draft's
/// texts, the given identifier, and the status `ToDo`.
pub open spec fn filed(draft: TicketDraft, id: TicketId) -> Ticket {
    Ticket { id, title: draft.title, description: draft.description, status: Status::ToDo }
}

impl Clone for TicketDraft {
    fn clone(&self) -> (copy: Self)
        ensures
            copy == *self,
    {
        TicketDraft { title: self.title.clone(), description: self.description.clone() }
    }
}

impl Clone for Ticket {
    fn clone(&self) -> (copy: Self)
        ensures
            copy == *self,
    {
        Ticket {
            id: self.id,
            title: self.title.clone(),
            description: self.description.clone(),
            status: self.status,
        }
    }
}

impl Ticket {
    /// Stores a draft under an identifier.
    pub fn file(draft: TicketDraft, id: TicketId) -> (ticket: Ticket)
        ensures
            ticket == filed(draft, id),
    {
        Ticket { id, title: draft.title, description: draft.description, status: Status::ToDo }
    }
}

} // verus!
