use eventdao::{
    buy_ticket, create_event, initialize, use_ticket, BuyTicket, CreateEvent, ErrorCode,
    Initialize, Pubkey, UseTicket,
};

fn key(tag: u8) -> Pubkey {
    Pubkey::new_from_array([tag; 32])
}

#[test]
fn catalog_event_tickets_and_redemption() {
    let authority = key(1);
    let organizer = key(2);
    let a = key(10);
    let b = key(11);
    let c = key(12);

    let mut init = Initialize { event_dao: None, authority, bump: 255 };
    assert_eq!(initialize(&mut init), Ok(()));
    let event_dao = init.event_dao.unwrap();
    assert_eq!(event_dao.authority, authority);
    assert_eq!(event_dao.total_events, 0);

    let mut create = CreateEvent { event_dao, event: None, organizer, bump: 254 };
    let id = create_event(
        &mut create,
        String::from("Launch"),
        String::from("Launch party"),
        2,
        5_000,
        1_700_000_000,
    );
    assert_eq!(id, Ok(0));
    assert_eq!(create.event_dao.total_events, 1);
    let event = create.event.unwrap();

    let mut buy_a = BuyTicket { event, ticket: None, buyer: a, bump: 253 };
    assert_eq!(buy_ticket(&mut buy_a, 1_700_000_100), Ok(()));
    assert_eq!(buy_a.event.current_participants, 1);
    let ticket_a = buy_a.ticket.unwrap();

    let mut buy_b = BuyTicket { event: buy_a.event, ticket: None, buyer: b, bump: 252 };
    assert_eq!(buy_ticket(&mut buy_b, 1_700_000_200), Ok(()));
    assert_eq!(buy_b.event.current_participants, 2);
    let ticket_b = buy_b.ticket.unwrap();

    let mut buy_c = BuyTicket { event: buy_b.event, ticket: None, buyer: c, bump: 251 };
    assert_eq!(buy_ticket(&mut buy_c, 1_700_000_300), Err(ErrorCode::EventFull));
    assert_eq!(buy_c.event.current_participants, 2);
    assert_eq!(buy_c.ticket, None);

    let mut use_a = UseTicket { ticket: ticket_a, user: a };
    assert_eq!(use_ticket(&mut use_a), Ok(()));
    assert!(use_a.ticket.is_used);

    assert_eq!(use_ticket(&mut use_a), Err(ErrorCode::TicketAlreadyUsed));
    assert!(use_a.ticket.is_used);

    let mut use_b = UseTicket { ticket: ticket_b, user: a };
    assert_eq!(use_ticket(&mut use_b), Err(ErrorCode::NotTicketOwner));
    assert!(!use_b.ticket.is_used);
}
