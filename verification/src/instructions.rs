use vstd::prelude::*;
use crate::error::ErrorCode;
use crate::pubkey::Pubkey;
use crate::state::{
    text_len, Event, EventDAO, EventDAOView, EventView, Ticket, TicketView, MAX_DESCRIPTION_LEN,
    MAX_TITLE_LEN,
};

verus! {

/// The records that setting up the catalog touches: the catalog's place and
/// the authority who signed.
#[derive(Debug, PartialEq, Eq)]
pub struct Initialize {
    /// The catalog, if it exists.
    pub event_dao: Option<EventDAO>,
    pub authority: Pubkey,
    /// Bump seed of the catalog's address.
    pub bump: u8,
}

/// What the records of [`Initialize`] hold.
pub struct InitializeView {
    pub event_dao: Option<EventDAOView>,
    pub authority: Seq<u8>,
    pub bump: nat,
}

impl View for Initialize {
    type V = InitializeView;

    open spec fn view(&self) -> InitializeView {
        InitializeView {
            event_dao: match self.event_dao {
                Some(event_dao) => Some(event_dao@),
                None => None,
            },
            authority: self.authority@,
            bump: self.bump as nat,
        }
    }
}

impl Clone for Initialize {
    fn clone(&self) -> (copy: Initialize)
        ensures
            copy@ == self@,
    {
        Initialize {
            event_dao: match &self.event_dao {
                Some(event_dao) => Some(event_dao.clone()),
                None => None,
            },
            authority: self.authority,
            bump: self.bump,
        }
    }
}

/// Why setting up the catalog is rejected, if it is.
pub open spec fn initialize_error(ctx: InitializeView) -> Option<ErrorCode> {
    if ctx.event_dao is Some {
        Some(ErrorCode::AlreadyInitialized)
    } else {
        None
    }
}

/// The records after `initialize`: unchanged when it is rejected; else the
/// catalog exists, belongs to the signer and has handed out no id.
pub open spec fn after_initialize(ctx: InitializeView) -> InitializeView {
    if initialize_error(ctx) is Some {
        ctx
    } else {
        InitializeView {
            event_dao: Some(
                EventDAOView { authority: ctx.authority, total_events: 0, bump: ctx.bump },
            ),
            ..ctx
        }
    }
}

/// Sets up the catalog, once.
pub fn initialize(ctx: &mut Initialize) -> (res: Result<(), ErrorCode>)
    ensures
        match initialize_error(old(ctx)@) {
            Some(e) => res == Err::<(), ErrorCode>(e),
            None => res == Ok::<(), ErrorCode>(()),
        },
        final(ctx)@ == after_initialize(old(ctx)@),
{
    if ctx.event_dao.is_some() {
        return Err(ErrorCode::AlreadyInitialized);
    }
    ctx.event_dao = Some(EventDAO { authority: ctx.authority, total_events: 0, bump: ctx.bump });
    Ok(())
}

/// The records that creating an event touches: the catalog, the place of the
/// new event, which is vacant before the call, and the organizer who signed.
#[derive(Debug, PartialEq, Eq)]
pub struct CreateEvent {
    pub event_dao: EventDAO,
    pub event: Option<Event>,
    pub organizer: Pubkey,
    /// Bump seed of the new event's address.
    pub bump: u8,
}

/// What the records of [`CreateEvent`] hold.
pub struct CreateEventView {
    pub event_dao: EventDAOView,
    pub event: Option<EventView>,
    pub organizer: Seq<u8>,
    pub bump: nat,
}

impl View for CreateEvent {
    type V = CreateEventView;

    open spec fn view(&self) -> CreateEventView {
        CreateEventView {
            event_dao: self.event_dao@,
            event: match self.event {
                Some(event) => Some(event@),
                None => None,
            },
            organizer: self.organizer@,
            bump: self.bump as nat,
        }
    }
}

impl Clone for CreateEvent {
    fn clone(&self) -> (copy: CreateEvent)
        ensures
            copy@ == self@,
    {
        CreateEvent {
            event_dao: self.event_dao.clone(),
            event: match &self.event {
                Some(event) => Some(event.clone()),
                None => None,
            },
            organizer: self.organizer,
            bump: self.bump,
        }
    }
}

/// Why creating an event with these texts is rejected, if it is.
pub open spec fn create_event_error(title: Seq<char>, description: Seq<char>) -> Option<ErrorCode> {
    if text_len(title) > MAX_TITLE_LEN || text_len(description) > MAX_DESCRIPTION_LEN {
        Some(ErrorCode::FieldTooLong)
    } else {
        None
    }
}

/// The event that a successful creation writes: it takes the catalog's counter
/// as its id, has no participant yet and is active.
pub open spec fn created_event(
    ctx: CreateEventView,
    title: Seq<char>,
    description: Seq<char>,
    max_participants: nat,
    ticket_price: nat,
    now: int,
) -> EventView {
    EventView {
        id: ctx.event_dao.total_events,
        title,
        description,
        organizer: ctx.organizer,
        max_participants,
        current_participants: 0,
        ticket_price,
        is_active: true,
        created_at: now,
        bump: ctx.bump,
    }
}

/// The records after `create_event`: unchanged when it is rejected; else the
/// event stands in its place and the catalog's counter is one higher.
pub open spec fn after_create_event(
    ctx: CreateEventView,
    title: Seq<char>,
    description: Seq<char>,
    max_participants: nat,
    ticket_price: nat,
    now: int,
) -> CreateEventView {
    if create_event_error(title, description) is Some {
        ctx
    } else {
        CreateEventView {
            event_dao: EventDAOView {
                total_events: ctx.event_dao.total_events + 1,
                ..ctx.event_dao
            },
            event: Some(
                created_event(ctx, title, description, max_participants, ticket_price, now),
            ),
            ..ctx
        }
    }
}

/// Length of a text in bytes of UTF-8.
fn byte_len(text: &String) -> (n: usize)
    ensures
        n == text_len(text@),
{
    text.as_str().as_bytes().len()
}

/// Creates an event under the catalog and returns its id, the catalog's
/// counter before the call.
///
/// The place of an event whose id was not handed out yet is vacant, and the
/// counter has not reached the end of its range.
pub fn create_event(
    ctx: &mut CreateEvent,
    title: String,
    description: String,
    max_participants: u32,
    ticket_price: u64,
    now: i64,
) -> (res: Result<u32, ErrorCode>)
    requires
        old(ctx).event is None,
        old(ctx).event_dao.total_events < u32::MAX,
    ensures
        match create_event_error(title@, description@) {
            Some(e) => res == Err::<u32, ErrorCode>(e),
            None => res == Ok::<u32, ErrorCode>(old(ctx).event_dao.total_events),
        },
        final(ctx)@ == after_create_event(
            old(ctx)@,
            title@,
            description@,
            max_participants as nat,
            ticket_price as nat,
            now as int,
        ),
{
    if byte_len(&title) > MAX_TITLE_LEN || byte_len(&description) > MAX_DESCRIPTION_LEN {
        return Err(ErrorCode::FieldTooLong);
    }
    let id: u32 = ctx.event_dao.total_events;
    ctx.event = Some(
        Event {
            id,
            title,
            description,
            organizer: ctx.organizer,
            max_participants,
            current_participants: 0,
            ticket_price,
            is_active: true,
            created_at: now,
            bump: ctx.bump,
        },
    );
    ctx.event_dao.total_events = id + 1;
    Ok(id)
}

/// The records that buying a ticket touches: the event, the place of the
/// buyer's ticket for it, and the buyer who signed.
#[derive(Debug, PartialEq, Eq)]
pub struct BuyTicket {
    pub event: Event,
    /// The buyer's ticket for the event, if one exists.
    pub ticket: Option<Ticket>,
    pub buyer: Pubkey,
    /// Bump seed of the ticket's address.
    pub bump: u8,
}

/// What the records of [`BuyTicket`] hold.
pub struct BuyTicketView {
    pub event: EventView,
    pub ticket: Option<TicketView>,
    pub buyer: Seq<u8>,
    pub bump: nat,
}

impl View for BuyTicket {
    type V = BuyTicketView;

    open spec fn view(&self) -> BuyTicketView {
        BuyTicketView {
            event: self.event@,
            ticket: match self.ticket {
                Some(ticket) => Some(ticket@),
                None => None,
            },
            buyer: self.buyer@,
            bump: self.bump as nat,
        }
    }
}

impl Clone for BuyTicket {
    fn clone(&self) -> (copy: BuyTicket)
        ensures
            copy@ == self@,
    {
        BuyTicket {
            event: self.event.clone(),
            ticket: match &self.ticket {
                Some(ticket) => Some(ticket.clone()),
                None => None,
            },
            buyer: self.buyer,
            bump: self.bump,
        }
    }
}

/// Why a purchase is rejected, if it is: the event is looked at first, and
/// the ticket's place only once the event has room.
pub open spec fn buy_ticket_error(ctx: BuyTicketView) -> Option<ErrorCode> {
    if !ctx.event.is_active {
        Some(ErrorCode::EventNotActive)
    } else if ctx.event.current_participants >= ctx.event.max_participants {
        Some(ErrorCode::EventFull)
    } else if ctx.ticket is Some {
        Some(ErrorCode::DuplicatePurchase)
    } else {
        None
    }
}

/// The ticket that a successful purchase writes.
pub open spec fn bought_ticket(ctx: BuyTicketView, now: int) -> TicketView {
    TicketView {
        event_id: ctx.event.id,
        owner: ctx.buyer,
        purchase_time: now,
        is_used: false,
        bump: ctx.bump,
    }
}

/// The records after `buy_ticket`: unchanged when it is rejected; else the
/// ticket stands in its place and the event has one participant more.
pub open spec fn after_buy_ticket(ctx: BuyTicketView, now: int) -> BuyTicketView {
    if buy_ticket_error(ctx) is Some {
        ctx
    } else {
        BuyTicketView {
            event: EventView {
                current_participants: ctx.event.current_participants + 1,
                ..ctx.event
            },
            ticket: Some(bought_ticket(ctx, now)),
            ..ctx
        }
    }
}

/// Buys the buyer's ticket for the event. No payment is made here: the price
/// of the event is not read.
pub fn buy_ticket(ctx: &mut BuyTicket, now: i64) -> (res: Result<(), ErrorCode>)
    ensures
        match buy_ticket_error(old(ctx)@) {
            Some(e) => res == Err::<(), ErrorCode>(e),
            None => res == Ok::<(), ErrorCode>(()),
        },
        final(ctx)@ == after_buy_ticket(old(ctx)@, now as int),
{
    if !ctx.event.is_active {
        return Err(ErrorCode::EventNotActive);
    }
    if ctx.event.current_participants >= ctx.event.max_participants {
        return Err(ErrorCode::EventFull);
    }
    if ctx.ticket.is_some() {
        return Err(ErrorCode::DuplicatePurchase);
    }
    ctx.ticket = Some(
        Ticket {
            event_id: ctx.event.id,
            owner: ctx.buyer,
            purchase_time: now,
            is_used: false,
            bump: ctx.bump,
        },
    );
    ctx.event.current_participants = ctx.event.current_participants + 1;
    Ok(())
}

/// The records that redeeming a ticket touches: the ticket and the caller who
/// signed.
#[derive(Debug, PartialEq, Eq)]
pub struct UseTicket {
    pub ticket: Ticket,
    pub user: Pubkey,
}

/// What the records of [`UseTicket`] hold.
pub struct UseTicketView {
    pub ticket: TicketView,
    pub user: Seq<u8>,
}

impl View for UseTicket {
    type V = UseTicketView;

    open spec fn view(&self) -> UseTicketView {
        UseTicketView { ticket: self.ticket@, user: self.user@ }
    }
}

impl Clone for UseTicket {
    fn clone(&self) -> (copy: UseTicket)
        ensures
            copy@ == self@,
    {
        UseTicket { ticket: self.ticket.clone(), user: self.user }
    }
}

/// Why redeeming is rejected, if it is: a used ticket is refused to everyone,
/// an unused one to everyone but its owner.
pub open spec fn use_ticket_error(ctx: UseTicketView) -> Option<ErrorCode> {
    if ctx.ticket.is_used {
        Some(ErrorCode::TicketAlreadyUsed)
    } else if ctx.ticket.owner != ctx.user {
        Some(ErrorCode::NotTicketOwner)
    } else {
        None
    }
}

/// The records after `use_ticket`: unchanged when it is rejected; else the
/// ticket is used.
pub open spec fn after_use_ticket(ctx: UseTicketView) -> UseTicketView {
    if use_ticket_error(ctx) is Some {
        ctx
    } else {
        UseTicketView { ticket: TicketView { is_used: true, ..ctx.ticket }, ..ctx }
    }
}

/// Redeems the ticket for its owner, once.
pub fn use_ticket(ctx: &mut UseTicket) -> (res: Result<(), ErrorCode>)
    ensures
        match use_ticket_error(old(ctx)@) {
            Some(e) => res == Err::<(), ErrorCode>(e),
            None => res == Ok::<(), ErrorCode>(()),
        },
        final(ctx)@ == after_use_ticket(old(ctx)@),
{
    if ctx.ticket.is_used {
        return Err(ErrorCode::TicketAlreadyUsed);
    }
    if ctx.ticket.owner != ctx.user {
        return Err(ErrorCode::NotTicketOwner);
    }
    ctx.ticket.is_used = true;
    Ok(())
}

} // verus!
