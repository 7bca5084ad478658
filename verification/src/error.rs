use vstd::prelude::*;

verus! {

/// Why an operation was rejected. A rejected operation changes no record.
#[derive(Clone, Copy, Debug, PartialEq, Eq, Structural)]
pub enum ErrorCode {
    /// The event does not accept purchases.
    EventNotActive,
    /// Every place of the event is taken.
    EventFull,
    /// The ticket was redeemed before.
    TicketAlreadyUsed,
    /// The caller is not the buyer of the ticket.
    NotTicketOwner,
    /// The catalog exists already.
    AlreadyInitialized,
    /// A title or a description is longer than its record field.
    FieldTooLong,
    /// The buyer holds a ticket for the event already.
    DuplicatePurchase,
}

} // verus!
