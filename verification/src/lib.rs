//! The rules of a ledger of events and tickets: one catalog hands out event
//! ids, organizers create events under it, and buyers buy and later redeem
//! one ticket each, as far as an event has places.
//!
//! Each operation is handed the records that it touches and either writes
//! all of its changes or none: [`initialize`], [`create_event`],
//! [`buy_ticket`] and [`use_ticket`]. What holds of any run of them is proved
//! in [`laws`]. Where the records stand is computed in [`address`].

pub mod address;
pub mod error;
pub mod instructions;
pub mod laws;
pub mod pubkey;
pub mod state;

pub use error::ErrorCode;
pub use instructions::{
    buy_ticket, create_event, initialize, use_ticket, BuyTicket, CreateEvent, Initialize,
    UseTicket,
};
pub use pubkey::Pubkey;
pub use state::{Event, EventDAO, Ticket};
