use eventdao::{
    buy_ticket, use_ticket, BuyTicket, ErrorCode, Event, Pubkey, Ticket, UseTicket,
};

fn ticket_key(tag: u8) -> Pubkey {
    Pubkey::new_from_array([tag; 32])
}

fn event_with(max_participants: u32, current_participants: u32, is_active: bool) -> Event {
    Event {
        id: 5,
        title: String::from("Concert"),
        description: String::from("Open air"),
        organizer: ticket_key(2),
        max_participants,
        current_participants,
        ticket_price: 700,
        is_active,
        created_at: 1_000,
        bump: 200,
    }
}

fn unused_ticket(owner: Pubkey) -> Ticket {
    Ticket { event_id: 5, owner, purchase_time: 2_000, is_used: false, bump: 201 }
}

#[test]
fn buy_ticket_writes_every_field() {
    let buyer = ticket_key(10);
    let mut ctx = BuyTicket { event: event_with(3, 1, true), ticket: None, buyer, bump: 77 };
    assert_eq!(buy_ticket(&mut ctx, 1_234_567), Ok(()));
    assert_eq!(
        ctx.ticket,
        Some(Ticket { event_id: 5, owner: buyer, purchase_time: 1_234_567, is_used: false, bump: 77 })
    );
    assert_eq!(ctx.event, event_with(3, 2, true));
    assert_eq!(ctx.buyer, buyer);
    assert_eq!(ctx.bump, 77);
}

#[test]
fn purchases_stop_at_capacity() {
    let capacity = 4u32;
    let mut event = event_with(capacity, 0, true);
    for n in 1..=capacity {
        let mut ctx = BuyTicket { event, ticket: None, buyer: ticket_key(n as u8), bump: 1 };
        assert_eq!(buy_ticket(&mut ctx, 10), Ok(()));
        assert_eq!(ctx.event.current_participants, n);
        assert!(ctx.event.current_participants <= ctx.event.max_participants);
        event = ctx.event;
    }
    let mut ctx = BuyTicket { event, ticket: None, buyer: ticket_key(99), bump: 1 };
    let before = ctx.clone();
    assert_eq!(buy_ticket(&mut ctx, 10), Err(ErrorCode::EventFull));
    assert_eq!(ctx, before);
    assert_eq!(ctx.event.current_participants, capacity);
}

#[test]
fn event_without_places_is_full() {
    let mut ctx =
        BuyTicket { event: event_with(0, 0, true), ticket: None, buyer: ticket_key(10), bump: 1 };
    assert_eq!(buy_ticket(&mut ctx, 10), Err(ErrorCode::EventFull));
    assert_eq!(ctx.ticket, None);
    assert_eq!(ctx.event.current_participants, 0);
}

#[test]
fn last_place_can_be_bought() {
    let mut ctx = BuyTicket {
        event: event_with(u32::MAX, u32::MAX - 1, true),
        ticket: None,
        buyer: ticket_key(10),
        bump: 1,
    };
    assert_eq!(buy_ticket(&mut ctx, 10), Ok(()));
    assert_eq!(ctx.event.current_participants, u32::MAX);
    ctx.ticket = None;
    assert_eq!(buy_ticket(&mut ctx, 11), Err(ErrorCode::EventFull));
}

#[test]
fn inactive_event_sells_nothing() {
    let mut ctx =
        BuyTicket { event: event_with(3, 1, false), ticket: None, buyer: ticket_key(10), bump: 1 };
    let before = ctx.clone();
    assert_eq!(buy_ticket(&mut ctx, 10), Err(ErrorCode::EventNotActive));
    assert_eq!(ctx, before);
}

#[test]
fn inactive_is_reported_before_full() {
    let mut ctx =
        BuyTicket { event: event_with(3, 3, false), ticket: None, buyer: ticket_key(10), bump: 1 };
    assert_eq!(buy_ticket(&mut ctx, 10), Err(ErrorCode::EventNotActive));
}

#[test]
fn second_purchase_is_a_duplicate() {
    let buyer = ticket_key(10);
    let mut ctx = BuyTicket { event: event_with(3, 0, true), ticket: None, buyer, bump: 1 };
    assert_eq!(buy_ticket(&mut ctx, 10), Ok(()));
    let before = ctx.clone();
    assert_eq!(buy_ticket(&mut ctx, 20), Err(ErrorCode::DuplicatePurchase));
    assert_eq!(ctx, before);
    assert_eq!(ctx.event.current_participants, 1);
    assert_eq!(ctx.ticket.as_ref().unwrap().purchase_time, 10);
}

#[test]
fn duplicate_is_reported_after_full() {
    let buyer = ticket_key(10);
    let mut ctx = BuyTicket { event: event_with(1, 0, true), ticket: None, buyer, bump: 1 };
    assert_eq!(buy_ticket(&mut ctx, 10), Ok(()));
    let before = ctx.clone();
    assert_eq!(buy_ticket(&mut ctx, 20), Err(ErrorCode::EventFull));
    assert_eq!(ctx, before);
}

#[test]
fn used_ticket_still_blocks_a_purchase() {
    let buyer = ticket_key(10);
    let mut held = unused_ticket(buyer);
    held.is_used = true;
    let mut ctx =
        BuyTicket { event: event_with(3, 1, true), ticket: Some(held.clone()), buyer, bump: 1 };
    assert_eq!(buy_ticket(&mut ctx, 20), Err(ErrorCode::DuplicatePurchase));
    assert_eq!(ctx.ticket, Some(held));
}

#[test]
fn price_is_not_read() {
    let mut free = event_with(3, 0, true);
    free.ticket_price = 0;
    let mut dear = event_with(3, 0, true);
    dear.ticket_price = u64::MAX;
    let mut a = BuyTicket { event: free, ticket: None, buyer: ticket_key(10), bump: 1 };
    let mut b = BuyTicket { event: dear, ticket: None, buyer: ticket_key(10), bump: 1 };
    assert_eq!(buy_ticket(&mut a, 10), Ok(()));
    assert_eq!(buy_ticket(&mut b, 10), Ok(()));
    assert_eq!(a.ticket, b.ticket);
    assert_eq!(b.event.ticket_price, u64::MAX);
}

#[test]
fn owner_redeems_the_ticket() {
    let owner = ticket_key(10);
    let mut ctx = UseTicket { ticket: unused_ticket(owner), user: owner };
    assert_eq!(use_ticket(&mut ctx), Ok(()));
    assert_eq!(
        ctx.ticket,
        Ticket { event_id: 5, owner, purchase_time: 2_000, is_used: true, bump: 201 }
    );
    assert_eq!(ctx.user, owner);
}

#[test]
fn ticket_is_redeemed_once() {
    let owner = ticket_key(10);
    let mut ctx = UseTicket { ticket: unused_ticket(owner), user: owner };
    assert_eq!(use_ticket(&mut ctx), Ok(()));
    let before = ctx.clone();
    assert_eq!(use_ticket(&mut ctx), Err(ErrorCode::TicketAlreadyUsed));
    assert_eq!(ctx, before);
    assert!(ctx.ticket.is_used);
}

#[test]
fn used_ticket_is_refused_to_anyone() {
    let owner = ticket_key(10);
    let mut ctx = UseTicket { ticket: unused_ticket(owner), user: owner };
    assert_eq!(use_ticket(&mut ctx), Ok(()));
    let mut other = UseTicket { ticket: ctx.ticket.clone(), user: ticket_key(11) };
    assert_eq!(use_ticket(&mut other), Err(ErrorCode::TicketAlreadyUsed));
    assert!(other.ticket.is_used);
}

#[test]
fn stranger_cannot_redeem() {
    let owner = ticket_key(10);
    let mut ctx = UseTicket { ticket: unused_ticket(owner), user: ticket_key(11) };
    let before = ctx.clone();
    assert_eq!(use_ticket(&mut ctx), Err(ErrorCode::NotTicketOwner));
    assert_eq!(ctx, before);
    assert!(!ctx.ticket.is_used);
    // the owner still can
    ctx.user = owner;
    assert_eq!(use_ticket(&mut ctx), Ok(()));
}

#[test]
fn keys_that_differ_in_one_byte_are_strangers() {
    let owner = ticket_key(10);
    let mut bytes = owner.to_bytes();
    bytes[31] = 11;
    let mut ctx = UseTicket { ticket: unused_ticket(owner), user: Pubkey::new_from_array(bytes) };
    assert_eq!(use_ticket(&mut ctx), Err(ErrorCode::NotTicketOwner));
    bytes[31] = 10;
    bytes[0] = 0;
    ctx.user = Pubkey::new_from_array(bytes);
    assert_eq!(use_ticket(&mut ctx), Err(ErrorCode::NotTicketOwner));
}

#[test]
fn ticket_and_count_are_written_together() {
    let mut ctx =
        BuyTicket { event: event_with(2, 1, true), ticket: None, buyer: ticket_key(10), bump: 1 };
    assert_eq!(buy_ticket(&mut ctx, 10), Ok(()));
    assert!(ctx.ticket.is_some());
    assert_eq!(ctx.event.current_participants, 2);

    let mut full =
        BuyTicket { event: ctx.event.clone(), ticket: None, buyer: ticket_key(11), bump: 1 };
    assert!(buy_ticket(&mut full, 11).is_err());
    assert!(full.ticket.is_none());
    assert_eq!(full.event.current_participants, 2);
}
