use vstd::prelude::*;
use vstd::utf8::encode_utf8;
use crate::pubkey::Pubkey;

verus! {

/// Longest title of an event, in bytes of UTF-8.
pub const MAX_TITLE_LEN: usize = 100;

/// Longest description of an event, in bytes of UTF-8.
pub const MAX_DESCRIPTION_LEN: usize = 500;

/// Length of a text in bytes of UTF-8, the unit in which record fields are bounded.
pub open spec fn text_len(text: Seq<char>) -> nat {
    encode_utf8(text).len()
}

/// The catalog: the one record that hands out event ids.
#[derive(Debug, PartialEq, Eq)]
pub struct EventDAO {
    pub authority: Pubkey,
    pub total_events: u32,
    pub bump: u8,
}

/// What a catalog record holds.
pub struct EventDAOView {
    pub authority: Seq<u8>,
    pub total_events: nat,
    pub bump: nat,
}

impl View for EventDAO {
    type V = EventDAOView;

    open spec fn view(&self) -> EventDAOView {
        EventDAOView {
            authority: self.authority@,
            total_events: self.total_events as nat,
            bump: self.bump as nat,
        }
    }
}

/// One event of the catalog.
#[derive(Debug, PartialEq, Eq)]
pub struct Event {
    pub id: u32,
    pub title: String,
    pub description: String,
    pub organizer: Pubkey,
    pub max_participants: u32,
    pub current_participants: u32,
    pub ticket_price: u64,
    pub is_active: bool,
    pub created_at: i64,
    pub bump: u8,
}

/// What an event record holds.
pub struct EventView {
    pub id: nat,
    pub title: Seq<char>,
    pub description: Seq<char>,
    pub organizer: Seq<u8>,
    pub max_participants: nat,
    pub current_participants: nat,
    pub ticket_price: nat,
    pub is_active: bool,
    pub created_at: int,
    pub bump: nat,
}

impl EventView {
    /// No more participants than places, and both texts fit their fields.
    pub open spec fn well_formed(self) -> bool {
        &&& self.current_participants <= self.max_participants
        &&& text_len(self.title) <= MAX_TITLE_LEN
        &&& text_len(self.description) <= MAX_DESCRIPTION_LEN
    }
}

impl View for Event {
    type V = EventView;

    open spec fn view(&self) -> EventView {
        EventView {
            id: self.id as nat,
            title: self.title@,
            description: self.description@,
            organizer: self.organizer@,
            max_participants: self.max_participants as nat,
            current_participants: self.current_participants as nat,
            ticket_price: self.ticket_price as nat,
            is_active: self.is_active,
            created_at: self.created_at as int,
            bump: self.bump as nat,
        }
    }
}

/// The ticket of one buyer for one event.
#[derive(Debug, PartialEq, Eq)]
pub struct Ticket {
    pub event_id: u32,
    pub owner: Pubkey,
    pub purchase_time: i64,
    pub is_used: bool,
    pub bump: u8,
}

/// What a ticket record holds.
pub struct TicketView {
    pub event_id: nat,
    pub owner: Seq<u8>,
    pub purchase_time: int,
    pub is_used: bool,
    pub bump: nat,
}

impl View for Ticket {
    type V = TicketView;

    open spec fn view(&self) -> TicketView {
        TicketView {
            event_id: self.event_id as nat,
            owner: self.owner@,
            purchase_time: self.purchase_time as int,
            is_used: self.is_used,
            bump: self.bump as nat,
        }
    }
}

impl Clone for EventDAO {
    fn clone(&self) -> (copy: EventDAO)
        ensures
            copy@ == self@,
    {
        EventDAO { authority: self.authority, total_events: self.total_events, bump: self.bump }
    }
}

impl Clone for Event {
    fn clone(&self) -> (copy: Event)
        ensures
            copy@ == self@,
    {
        Event {
            id: self.id,
            title: self.title.clone(),
            description: self.description.clone(),
            organizer: self.organizer,
            max_participants: self.max_participants,
            current_participants: self.current_participants,
            ticket_price: self.ticket_price,
            is_active: self.is_active,
            created_at: self.created_at,
            bump: self.bump,
        }
    }
}

impl Clone for Ticket {
    fn clone(&self) -> (copy: Ticket)
        ensures
            copy@ == self@,
    {
        Ticket {
            event_id: self.event_id,
            owner: self.owner,
            purchase_time: self.purchase_time,
            is_used: self.is_used,
            bump: self.bump,
        }
    }
}

} // verus!
