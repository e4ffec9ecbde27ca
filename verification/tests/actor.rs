use bounded::worker::step;
use bounded::{
    dispatch, launch, server, Command, Mailbox, Received, Reply, Status, Ticket, TicketDraft,
    TicketId, TicketStore, TrySendError, WorkerState,
};

fn draft(title: &str, description: &str) -> TicketDraft {
    TicketDraft { title: title.to_string(), description: description.to_string() }
}

fn ticket(id: u64, title: &str, description: &str) -> Ticket {
    Ticket {
        id: TicketId(id),
        title: title.to_string(),
        description: description.to_string(),
        status: Status::ToDo,
    }
}

#[test]
fn insert_then_lookup_hit_and_miss() {
    let (client, mut mailbox, mut store) = launch::<u32, u32>(1);

    assert_eq!(client.insert(&mut mailbox, draft("X", "the draft"), 10), Ok(()));
    let (replies, state) = server(&mut mailbox, &mut store);
    assert_eq!(state, WorkerState::Running);
    assert_eq!(replies, vec![Reply::Inserted { id: TicketId(1), response_channel: 10 }]);

    assert_eq!(client.get(&mut mailbox, TicketId(1), 11), Ok(()));
    let (replies, _) = server(&mut mailbox, &mut store);
    assert_eq!(
        replies,
        vec![Reply::Fetched { ticket: Some(ticket(1, "X", "the draft")), response_channel: 11 }]
    );

    assert_eq!(client.get(&mut mailbox, TicketId(2), 12), Ok(()));
    let (replies, _) = server(&mut mailbox, &mut store);
    assert_eq!(replies, vec![Reply::Fetched { ticket: None, response_channel: 12 }]);
}

#[test]
fn two_inserts_back_to_back_with_one_slot() {
    let (client, mut mailbox, mut store) = launch::<u32, u32>(1);

    // The worker has not received the first when the second arrives.
    assert_eq!(client.insert(&mut mailbox, draft("a", "first"), 1), Ok(()));
    assert_eq!(
        client.insert(&mut mailbox, draft("b", "second"), 2),
        Err(TrySendError::Full(draft("b", "second")))
    );
    assert_eq!(mailbox.len(), 1);

    // Once the worker has served the first, the second is accepted.
    let (replies, _) = server(&mut mailbox, &mut store);
    assert_eq!(replies, vec![Reply::Inserted { id: TicketId(1), response_channel: 1 }]);
    assert_eq!(client.insert(&mut mailbox, draft("b", "second"), 2), Ok(()));
    let (replies, _) = server(&mut mailbox, &mut store);
    assert_eq!(replies, vec![Reply::Inserted { id: TicketId(2), response_channel: 2 }]);
}

#[test]
fn a_queue_without_slots_takes_a_command_only_for_a_waiting_worker() {
    let (client, mut mailbox, mut store) = launch::<u32, u32>(0);

    // The worker has not reached its receive yet.
    assert!(!mailbox.receiver_waiting());
    assert_eq!(
        client.insert(&mut mailbox, draft("a", "first"), 1),
        Err(TrySendError::Full(draft("a", "first")))
    );
    assert_eq!(mailbox.len(), 0);

    // The worker runs, finds nothing and blocks in its receive.
    let (replies, state) = server(&mut mailbox, &mut store);
    assert!(replies.is_empty());
    assert_eq!(state, WorkerState::Running);
    assert!(mailbox.receiver_waiting());

    // Two inserts back to back: the first meets the waiting worker, the
    // second finds it busy and gets its own draft back.
    assert_eq!(client.insert(&mut mailbox, draft("a", "first"), 1), Ok(()));
    assert!(!mailbox.receiver_waiting());
    assert_eq!(
        client.insert(&mut mailbox, draft("b", "second"), 2),
        Err(TrySendError::Full(draft("b", "second")))
    );
    assert_eq!(client.get(&mut mailbox, TicketId(1), 3), Err(TrySendError::Full(TicketId(1))));
    assert_eq!(mailbox.len(), 1);

    let (replies, state) = server(&mut mailbox, &mut store);
    assert_eq!(replies, vec![Reply::Inserted { id: TicketId(1), response_channel: 1 }]);
    assert_eq!(state, WorkerState::Running);

    // The worker waits again: the second insert is accepted now.
    assert_eq!(client.insert(&mut mailbox, draft("b", "second"), 2), Ok(()));
    let (replies, _) = server(&mut mailbox, &mut store);
    assert_eq!(replies, vec![Reply::Inserted { id: TicketId(2), response_channel: 2 }]);
    assert_eq!(store.len(), 2);
}

#[test]
fn a_waiting_worker_adds_no_slot_to_a_queue_that_has_some() {
    let (client, mut mailbox, mut store) = launch::<u32, u32>(1);
    let (_, state) = server(&mut mailbox, &mut store);
    assert_eq!(state, WorkerState::Running);
    assert!(mailbox.receiver_waiting());
    assert_eq!(client.insert(&mut mailbox, draft("a", "first"), 1), Ok(()));
    assert_eq!(
        client.insert(&mut mailbox, draft("b", "second"), 2),
        Err(TrySendError::Full(draft("b", "second")))
    );
}

#[test]
fn a_reply_that_never_came_shows_as_disconnected() {
    assert_eq!(bounded::client::awaited(Some(TicketId(3)), draft("a", "x")), Ok(TicketId(3)));
    assert_eq!(
        bounded::client::awaited::<TicketId, TicketDraft>(None, draft("a", "x")),
        Err(TrySendError::Disconnected(draft("a", "x")))
    );
    assert_eq!(
        bounded::client::awaited::<Option<Ticket>, TicketId>(None, TicketId(4)),
        Err(TrySendError::Disconnected(TicketId(4)))
    );
}

#[test]
fn worker_stops_when_the_only_handle_is_dropped() {
    let (client, mut mailbox, mut store) = launch::<u32, u32>(2);
    assert_eq!(mailbox.handles(), 1);
    client.release(&mut mailbox);
    assert_eq!(mailbox.handles(), 0);

    let (replies, state) = server(&mut mailbox, &mut store);
    assert_eq!(state, WorkerState::Stopped);
    assert!(replies.is_empty());
    assert!(!mailbox.receiver_alive());
}

#[test]
fn worker_serves_what_waits_before_it_stops() {
    let (client, mut mailbox, mut store) = launch::<u32, u32>(3);
    assert_eq!(client.insert(&mut mailbox, draft("a", "x"), 1), Ok(()));
    assert_eq!(client.get(&mut mailbox, TicketId(1), 2), Ok(()));
    client.release(&mut mailbox);

    let (replies, state) = server(&mut mailbox, &mut store);
    assert_eq!(state, WorkerState::Stopped);
    assert_eq!(
        replies,
        vec![
            Reply::Inserted { id: TicketId(1), response_channel: 1 },
            Reply::Fetched { ticket: Some(ticket(1, "a", "x")), response_channel: 2 },
        ]
    );
    assert_eq!(store.len(), 1);
    assert_eq!(mailbox.len(), 0);
}

#[test]
fn worker_keeps_running_while_a_handle_is_left() {
    let (client, mut mailbox, mut store) = launch::<u32, u32>(2);
    let second = client.share(&mut mailbox);
    assert_eq!(second, client);
    assert_eq!(second.channel_capacity(), 2);
    assert_eq!(mailbox.handles(), 2);
    client.release(&mut mailbox);

    let (_, state) = server(&mut mailbox, &mut store);
    assert_eq!(state, WorkerState::Running);
    assert!(mailbox.receiver_alive());

    second.release(&mut mailbox);
    let (_, state) = server(&mut mailbox, &mut store);
    assert_eq!(state, WorkerState::Stopped);
}

#[test]
fn submissions_after_the_worker_is_gone_are_disconnected() {
    let (client, mut mailbox, mut store) = launch::<u32, u32>(2);
    assert_eq!(client.insert(&mut mailbox, draft("a", "x"), 1), Ok(()));
    mailbox.close();
    assert_eq!(mailbox.len(), 0);
    assert_eq!(
        client.insert(&mut mailbox, draft("b", "y"), 2),
        Err(TrySendError::Disconnected(draft("b", "y")))
    );
    assert_eq!(
        client.get(&mut mailbox, TicketId(7), 3),
        Err(TrySendError::Disconnected(TicketId(7)))
    );
    let (replies, state) = server(&mut mailbox, &mut store);
    assert!(replies.is_empty());
    assert_eq!(state, WorkerState::Stopped);
}

#[test]
fn full_queue_hands_the_input_back_after_capacity_submissions() {
    let capacity: usize = 4;
    let (client, mut mailbox, _store) = launch::<u32, u32>(capacity);
    for k in 0..capacity {
        let sent = client.insert(&mut mailbox, draft("t", &format!("number {}", k)), k as u32);
        assert_eq!(sent, Ok(()));
    }
    assert_eq!(mailbox.len(), capacity);
    let refused = client.insert(&mut mailbox, draft("t", "one too many"), 99);
    assert_eq!(refused, Err(TrySendError::Full(draft("t", "one too many"))));
    let refused = client.get(&mut mailbox, TicketId(3), 100);
    assert_eq!(refused, Err(TrySendError::Full(TicketId(3))));
    assert_eq!(mailbox.len(), capacity);
    assert_eq!(mailbox.slots(), capacity);
}

#[test]
fn inserts_from_several_handles_get_distinct_identifiers() {
    let (first, mut mailbox, mut store) = launch::<u32, u32>(8);
    let second = first.share(&mut mailbox);
    let third = second.share(&mut mailbox);

    assert_eq!(second.insert(&mut mailbox, draft("b", "from second"), 20), Ok(()));
    assert_eq!(first.insert(&mut mailbox, draft("a", "from first"), 10), Ok(()));
    assert_eq!(third.insert(&mut mailbox, draft("c", "from third"), 30), Ok(()));
    assert_eq!(first.insert(&mut mailbox, draft("d", "from first again"), 11), Ok(()));

    let (replies, _) = server(&mut mailbox, &mut store);
    assert_eq!(
        replies,
        vec![
            Reply::Inserted { id: TicketId(1), response_channel: 20 },
            Reply::Inserted { id: TicketId(2), response_channel: 10 },
            Reply::Inserted { id: TicketId(3), response_channel: 30 },
            Reply::Inserted { id: TicketId(4), response_channel: 11 },
        ]
    );
    assert_eq!(store.len(), 4);
    assert_eq!(store.get(TicketId(1)), Some(&ticket(1, "b", "from second")));
    assert_eq!(store.get(TicketId(2)), Some(&ticket(2, "a", "from first")));
    assert_eq!(store.get(TicketId(3)), Some(&ticket(3, "c", "from third")));
    assert_eq!(store.get(TicketId(4)), Some(&ticket(4, "d", "from first again")));
}

#[test]
fn lookup_from_another_handle_sees_the_insert() {
    let (writer, mut mailbox, mut store) = launch::<u32, u32>(2);
    let reader = writer.share(&mut mailbox);

    assert_eq!(writer.insert(&mut mailbox, draft("w", "written"), 1), Ok(()));
    let (replies, _) = server(&mut mailbox, &mut store);
    let id = match &replies[0] {
        Reply::Inserted { id, .. } => *id,
        Reply::Fetched { .. } => panic!("an insert is answered with an identifier"),
    };
    assert_eq!(reader.get(&mut mailbox, id, 2), Ok(()));
    let (replies, _) = server(&mut mailbox, &mut store);
    assert_eq!(
        replies,
        vec![Reply::Fetched { ticket: Some(ticket(1, "w", "written")), response_channel: 2 }]
    );
}

#[test]
fn lookup_of_an_identifier_never_issued_is_absent() {
    let (client, mut mailbox, mut store) = launch::<u32, u32>(4);
    assert_eq!(client.insert(&mut mailbox, draft("a", "x"), 1), Ok(()));
    assert_eq!(client.get(&mut mailbox, TicketId(0), 2), Ok(()));
    assert_eq!(client.get(&mut mailbox, TicketId(2), 3), Ok(()));
    assert_eq!(client.get(&mut mailbox, TicketId(u64::MAX), 4), Ok(()));
    let (replies, _) = server(&mut mailbox, &mut store);
    assert_eq!(
        replies,
        vec![
            Reply::Inserted { id: TicketId(1), response_channel: 1 },
            Reply::Fetched { ticket: None, response_channel: 2 },
            Reply::Fetched { ticket: None, response_channel: 3 },
            Reply::Fetched { ticket: None, response_channel: 4 },
        ]
    );
}

#[test]
fn launch_gives_an_empty_queue_and_an_empty_store() {
    let (client, mailbox, store) = launch::<u32, u32>(3);
    assert_eq!(client.channel_capacity(), 3);
    assert_eq!(mailbox.slots(), 3);
    assert_eq!(mailbox.len(), 0);
    assert_eq!(mailbox.handles(), 1);
    assert!(mailbox.receiver_alive());
    assert!(!mailbox.receiver_waiting());
    assert_eq!(store.len(), 0);
    assert_eq!(store.get(TicketId(1)), None);
}

#[test]
fn store_numbers_tickets_from_one() {
    let mut store = TicketStore::new();
    assert_eq!(store.len(), 0);
    assert!(store.has_room());
    assert_eq!(store.get(TicketId(1)), None);
    assert_eq!(store.add_ticket(draft("a", "one")), TicketId(1));
    assert_eq!(store.add_ticket(draft("b", "two")), TicketId(2));
    assert_eq!(store.len(), 2);
    assert_eq!(store.get(TicketId(0)), None);
    assert_eq!(store.get(TicketId(1)), Some(&ticket(1, "a", "one")));
    assert_eq!(store.get(TicketId(2)), Some(&ticket(2, "b", "two")));
    assert_eq!(store.get(TicketId(3)), None);
}

#[test]
fn filed_ticket_and_copies_keep_every_field() {
    let filed = Ticket::file(draft("title", "text"), TicketId(5));
    assert_eq!(filed, ticket(5, "title", "text"));
    assert_eq!(filed.clone(), filed);
    let first = draft("t", "d");
    assert_eq!(first.clone(), first);
}

#[test]
fn dispatch_answers_on_the_conduit_of_the_command() {
    let mut store = TicketStore::new();
    let reply = dispatch::<&str, &str>(
        &mut store,
        Command::Insert { draft: draft("a", "x"), response_channel: "ids" },
    );
    assert_eq!(reply, Reply::Inserted { id: TicketId(1), response_channel: "ids" });
    let reply = dispatch::<&str, &str>(
        &mut store,
        Command::Get { id: TicketId(1), response_channel: "tickets" },
    );
    assert_eq!(
        reply,
        Reply::Fetched { ticket: Some(ticket(1, "a", "x")), response_channel: "tickets" }
    );
    assert_eq!(store.len(), 1);
}

#[test]
fn step_follows_what_was_received() {
    let mut store = TicketStore::new();
    let (state, reply) = step::<u32, u32>(
        &mut store,
        Received::Command(Command::Insert { draft: draft("a", "x"), response_channel: 1 }),
    );
    assert_eq!(state, WorkerState::Running);
    assert_eq!(reply, Some(Reply::Inserted { id: TicketId(1), response_channel: 1 }));
    let (state, reply) = step::<u32, u32>(&mut store, Received::Empty);
    assert_eq!(state, WorkerState::Running);
    assert_eq!(reply, None);
    let (state, reply) = step::<u32, u32>(&mut store, Received::Closed);
    assert_eq!(state, WorkerState::Stopped);
    assert_eq!(reply, None);
    assert_eq!(store.len(), 1);
}

#[test]
fn queue_hands_commands_out_first_in_first_out() {
    let mut mailbox: Mailbox<u32, u32> = Mailbox::new(2);
    assert_eq!(mailbox.recv(), Received::Empty);
    assert_eq!(mailbox.try_send(Command::Get { id: TicketId(1), response_channel: 1 }), Ok(()));
    assert_eq!(mailbox.try_send(Command::Get { id: TicketId(2), response_channel: 2 }), Ok(()));
    assert_eq!(
        mailbox.try_send(Command::Get { id: TicketId(3), response_channel: 3 }),
        Err(TrySendError::Full(Command::Get { id: TicketId(3), response_channel: 3 }))
    );
    assert_eq!(
        mailbox.recv(),
        Received::Command(Command::Get { id: TicketId(1), response_channel: 1 })
    );
    assert_eq!(
        mailbox.recv(),
        Received::Command(Command::Get { id: TicketId(2), response_channel: 2 })
    );
    assert_eq!(mailbox.recv(), Received::Empty);
    mailbox.drop_sender();
    assert_eq!(mailbox.recv(), Received::Closed);
    mailbox.drop_sender();
    assert_eq!(mailbox.handles(), 0);
    mailbox.add_sender();
    assert_eq!(mailbox.handles(), 1);
}

#[test]
fn refusal_tells_its_kind_and_gives_the_input_back() {
    let full = TrySendError::Full(draft("a", "x"));
    assert!(full.is_full());
    assert_eq!(full.into_inner(), draft("a", "x"));
    let gone = TrySendError::Disconnected(TicketId(4));
    assert!(!gone.is_full());
    assert_eq!(gone.into_inner(), TicketId(4));
}

#[test]
fn refused_command_gives_its_input_back() {
    let refused: TrySendError<Command<u32, u32>> =
        TrySendError::Full(Command::Insert { draft: draft("a", "x"), response_channel: 1 });
    assert_eq!(bounded::client::returned_draft(refused), TrySendError::Full(draft("a", "x")));
    let refused: TrySendError<Command<u32, u32>> =
        TrySendError::Disconnected(Command::Get { id: TicketId(9), response_channel: 1 });
    assert_eq!(bounded::client::returned_id(refused), TrySendError::Disconnected(TicketId(9)));
}
