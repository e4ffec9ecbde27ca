//! A bounded mailbox actor around a ticket store.
//!
//! Callers hold client handles and submit commands to a queue of fixed
//! capacity; one worker owns the store, serves the commands in the order in
//! which they were accepted and answers each on the reply conduit that came
//! with it. A full queue refuses a submission at once and hands the input
//! back. The worker stops when the queue is empty and no handle is left.
//!
//! Every transition of that protocol is a function here, with its contract.
//! The queue is a plain value: whoever holds it exclusively may submit to it
//! or receive from it. A threaded program keeps it behind a lock and calls
//! `launch`, `TicketStoreClient::insert`, `get` and `share`,
//! `Mailbox::recv`, `drop_sender` and `close`, `worker::step` and
//! `client::awaited`; the blocking itself, the thread and the one-shot reply
//! channels are that program's. `worker::server` is the worker's loop run in
//! one go on what waits, for a caller that drives the queue and the worker
//! from a single thread.

pub mod data;
pub mod store;
pub mod protocol;
pub mod mailbox;
pub mod client;
pub mod worker;
pub mod laws;

pub use client::{launch, TicketStoreClient};
pub use data::{Status, Ticket, TicketDraft, TicketId};
pub use mailbox::{Mailbox, Received};
pub use protocol::{Command, Reply, TrySendError};
pub use store::TicketStore;
pub use worker::{dispatch, server, WorkerState};
