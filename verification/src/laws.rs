use vstd::prelude::*;
use crate::error::ErrorCode;
use crate::instructions::{
    after_buy_ticket, after_create_event, after_initialize, after_use_ticket, buy_ticket_error,
    create_event_error, created_event, initialize_error, use_ticket_error, BuyTicketView,
    CreateEventView, InitializeView, UseTicketView,
};
use crate::state::{EventDAOView, EventView, TicketView};

verus! {

/// The catalog is set up once: after `initialize` has succeeded, every later
/// call, by the same signer or by anyone, fails with `AlreadyInitialized` and
/// leaves the catalog as it is.
pub proof fn law_catalog_is_set_up_once(ctx: InitializeView, anyone: Seq<u8>, bump: nat)
    requires
        initialize_error(ctx) is None,
    ensures
        ({
            let first = after_initialize(ctx);
            let second = InitializeView { authority: anyone, bump, ..first };
            &&& first.event_dao == Some(
                EventDAOView { authority: ctx.authority, total_events: 0, bump: ctx.bump },
            )
            &&& initialize_error(second) == Some(ErrorCode::AlreadyInitialized)
            &&& after_initialize(second) == second
        }),
{
}

/// One call of `create_event`, as its caller makes it.
pub struct EventRequest {
    pub organizer: Seq<u8>,
    pub bump: nat,
    pub title: Seq<char>,
    pub description: Seq<char>,
    pub max_participants: nat,
    pub ticket_price: nat,
    pub now: int,
}

impl EventRequest {
    /// Whether the call is accepted.
    pub open spec fn accepted(self) -> bool {
        create_event_error(self.title, self.description) is None
    }

    /// The records after the call, made when the catalog is `catalog`: the
    /// place of the new event is vacant before it.
    pub open spec fn after(self, catalog: EventDAOView) -> CreateEventView {
        after_create_event(
            CreateEventView {
                event_dao: catalog,
                event: None,
                organizer: self.organizer,
                bump: self.bump,
            },
            self.title,
            self.description,
            self.max_participants,
            self.ticket_price,
            self.now,
        )
    }
}

/// The catalog after the calls of `requests`, made in this order on `catalog`.
pub open spec fn catalog_after(catalog: EventDAOView, requests: Seq<EventRequest>) -> EventDAOView
    decreases requests.len(),
{
    if requests.len() == 0 {
        catalog
    } else {
        requests.last().after(catalog_after(catalog, requests.drop_last())).event_dao
    }
}

/// How many of the calls are accepted.
pub open spec fn accepted_count(requests: Seq<EventRequest>) -> nat
    decreases requests.len(),
{
    if requests.len() == 0 {
        0
    } else if requests.last().accepted() {
        accepted_count(requests.drop_last()) + 1
    } else {
        accepted_count(requests.drop_last())
    }
}

/// The counter of the catalog counts the events created: after any calls of
/// `create_event` it has grown by the number of those accepted, and nothing
/// else of the catalog has changed.
pub proof fn law_counter_counts_created_events(catalog: EventDAOView, requests: Seq<EventRequest>)
    ensures
        catalog_after(catalog, requests) == (EventDAOView {
            total_events: catalog.total_events + accepted_count(requests),
            ..catalog
        }),
    decreases requests.len(),
{
    if requests.len() > 0 {
        law_counter_counts_created_events(catalog, requests.drop_last());
    }
}

/// Ids are handed out in call order and without a gap: among any calls of
/// `create_event`, an accepted one creates the event whose id is the
/// catalog's counter at the start plus the number of accepted calls before
/// it. On a new catalog the ids are 0, 1, 2 and so on.
pub proof fn law_ids_follow_call_order(
    catalog: EventDAOView,
    requests: Seq<EventRequest>,
    k: int,
)
    requires
        0 <= k < requests.len(),
        requests[k].accepted(),
    ensures
        requests[k].after(catalog_after(catalog, requests.take(k))).event matches Some(event)
            && event.id == catalog.total_events + accepted_count(requests.take(k)),
{
    law_counter_counts_created_events(catalog, requests.take(k));
}

/// An event and the counter that reflects it are written together: after
/// `create_event` either the event stands in its place, with the id below the
/// counter, and the counter is one higher, or no record has changed.
pub proof fn law_event_and_counter_change_together(
    ctx: CreateEventView,
    title: Seq<char>,
    description: Seq<char>,
    max_participants: nat,
    ticket_price: nat,
    now: int,
)
    requires
        ctx.event is None,
    ensures
        ({
            let after = after_create_event(
                ctx,
                title,
                description,
                max_participants,
                ticket_price,
                now,
            );
            &&& after.event is Some <==> after.event_dao.total_events == ctx.event_dao.total_events
                + 1
            &&& after.event is None <==> after == ctx
            &&& after.event matches Some(event) ==> event.id < after.event_dao.total_events
        }),
{
}

/// An event is well formed when it is created: it has no participant yet,
/// and its texts fit their fields.
pub proof fn law_created_event_is_well_formed(
    ctx: CreateEventView,
    title: Seq<char>,
    description: Seq<char>,
    max_participants: nat,
    ticket_price: nat,
    now: int,
)
    requires
        create_event_error(title, description) is None,
    ensures
        created_event(
            ctx,
            title,
            description,
            max_participants,
            ticket_price,
            now,
        ).well_formed(),
{
}

/// No purchase gives an event more participants than it has places: a well
/// formed event is well formed after `buy_ticket`, accepted or rejected.
pub proof fn law_participants_within_capacity(ctx: BuyTicketView, now: int)
    requires
        ctx.event.well_formed(),
    ensures
        after_buy_ticket(ctx, now).event.well_formed(),
{
}

/// One call of `buy_ticket` by a buyer who holds no ticket for the event.
pub struct Purchase {
    pub buyer: Seq<u8>,
    pub bump: nat,
    pub now: int,
}

impl Purchase {
    /// The records that the call is given when the event is `event`.
    pub open spec fn ctx(self, event: EventView) -> BuyTicketView {
        BuyTicketView { event, ticket: None, buyer: self.buyer, bump: self.bump }
    }
}

/// The event after the calls of `purchases`, made in this order on `event`.
pub open spec fn event_after(event: EventView, purchases: Seq<Purchase>) -> EventView
    decreases purchases.len(),
{
    if purchases.len() == 0 {
        event
    } else {
        after_buy_ticket(
            purchases.last().ctx(event_after(event, purchases.drop_last())),
            purchases.last().now,
        ).event
    }
}

/// Purchases fill an active event up to its capacity and no further: after
/// any calls of `buy_ticket` by buyers without a ticket, the event has as
/// many participants more as there were calls, or is full.
pub proof fn law_purchases_fill_to_capacity(event: EventView, purchases: Seq<Purchase>)
    requires
        event.is_active,
        event.current_participants <= event.max_participants,
    ensures
        event_after(event, purchases) == (EventView {
            current_participants: if event.current_participants + purchases.len()
                <= event.max_participants {
                event.current_participants + purchases.len()
            } else {
                event.max_participants
            },
            ..event
        }),
    decreases purchases.len(),
{
    if purchases.len() > 0 {
        law_purchases_fill_to_capacity(event, purchases.drop_last());
    }
}

/// Among calls of `buy_ticket` on an active event by buyers without a ticket,
/// a call succeeds if and only if the participants before the first call and
/// the calls before this one are fewer than the places; any other fails with
/// `EventFull`. On a new event with C places the first C calls succeed and
/// the next one fails.
pub proof fn law_purchase_succeeds_while_places_are_left(
    event: EventView,
    purchases: Seq<Purchase>,
    k: int,
)
    requires
        event.is_active,
        event.current_participants <= event.max_participants,
        0 <= k < purchases.len(),
    ensures
        buy_ticket_error(purchases[k].ctx(event_after(event, purchases.take(k)))) == (if
            event.current_participants + k < event.max_participants {
            None
        } else {
            Some(ErrorCode::EventFull)
        }),
{
    law_purchases_fill_to_capacity(event, purchases.take(k));
}

/// A new event sells exactly its places: among calls of `buy_ticket` by
/// buyers without a ticket on an event as `create_event` wrote it, the first
/// C succeed, where C is the number of places, and every later one fails with
/// `EventFull`.
pub proof fn law_new_event_sells_its_places(
    ctx: CreateEventView,
    title: Seq<char>,
    description: Seq<char>,
    max_participants: nat,
    ticket_price: nat,
    now: int,
    purchases: Seq<Purchase>,
    k: int,
)
    requires
        0 <= k < purchases.len(),
    ensures
        ({
            let event = created_event(
                ctx,
                title,
                description,
                max_participants,
                ticket_price,
                now,
            );
            buy_ticket_error(purchases[k].ctx(event_after(event, purchases.take(k)))) == (if k
                < max_participants {
                None
            } else {
                Some(ErrorCode::EventFull)
            })
        }),
{
    let event = created_event(ctx, title, description, max_participants, ticket_price, now);
    law_purchase_succeeds_while_places_are_left(event, purchases, k);
}

/// A ticket and the count that reflects it are written together: after
/// `buy_ticket` on a vacant place either the ticket stands there and the
/// event has one participant more, or no record has changed.
pub proof fn law_ticket_and_count_change_together(ctx: BuyTicketView, now: int)
    requires
        ctx.ticket is None,
    ensures
        ({
            let after = after_buy_ticket(ctx, now);
            &&& after.ticket is Some <==> after.event.current_participants
                == ctx.event.current_participants + 1
            &&& after.ticket is None <==> after == ctx
        }),
{
}

/// A buyer never holds two tickets for one event: where the buyer's place is
/// taken, `buy_ticket` is rejected and changes no record.
pub proof fn law_no_second_ticket(ctx: BuyTicketView, now: int)
    requires
        ctx.ticket is Some,
    ensures
        buy_ticket_error(ctx) is Some,
        after_buy_ticket(ctx, now) == ctx,
{
}

/// A second purchase is a duplicate: after a purchase that left a place free,
/// another one by the same buyer for the same event fails with
/// `DuplicatePurchase`, whatever the time and the bump seed, and changes no
/// record.
pub proof fn law_second_purchase_is_duplicate(
    ctx: BuyTicketView,
    now: int,
    later: int,
    bump: nat,
)
    requires
        buy_ticket_error(ctx) is None,
        ctx.event.current_participants + 1 < ctx.event.max_participants,
    ensures
        ({
            let first = after_buy_ticket(ctx, now);
            let second = BuyTicketView { bump, ..first };
            &&& first.ticket is Some
            &&& buy_ticket_error(second) == Some(ErrorCode::DuplicatePurchase)
            &&& after_buy_ticket(second, later) == second
        }),
{
}

/// A ticket is redeemed once: on an unused ticket `use_ticket` succeeds for
/// the owner and fails with `NotTicketOwner` for anyone else; once it has
/// succeeded, every later call, by the owner or by anyone, fails with
/// `TicketAlreadyUsed` and leaves the ticket used.
pub proof fn law_ticket_is_redeemed_once(ctx: UseTicketView, anyone: Seq<u8>)
    requires
        !ctx.ticket.is_used,
    ensures
        ctx.user == ctx.ticket.owner ==> use_ticket_error(ctx) is None,
        ctx.user != ctx.ticket.owner ==> use_ticket_error(ctx) == Some(ErrorCode::NotTicketOwner),
        use_ticket_error(ctx) is None ==> ({
            let first = after_use_ticket(ctx);
            let second = UseTicketView { user: anyone, ..first };
            &&& first.ticket == (TicketView { is_used: true, ..ctx.ticket })
            &&& use_ticket_error(second) == Some(ErrorCode::TicketAlreadyUsed)
            &&& after_use_ticket(second) == second
        }),
{
}

/// A used ticket stays used: no call of `use_ticket` returns it to unused.
pub proof fn law_used_ticket_stays_used(ctx: UseTicketView)
    requires
        ctx.ticket.is_used,
    ensures
        use_ticket_error(ctx) == Some(ErrorCode::TicketAlreadyUsed),
        after_use_ticket(ctx) == ctx,
{
}

} // verus!
