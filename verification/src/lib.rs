//! Event ticketing with escrowed value.
//!
//! Organizers register, post refundable collateral to become verified, create
//! events and sell tickets. Each operation works on the records it is handed,
//! says in its result which transfer of value belongs to it, and leaves the
//! movement itself to the host that stores the records and holds the
//! balances. [`Ledger`] is such a host in memory: it keeps records and
//! balances by address and commits each operation whole or not at all.

pub mod address;
pub mod collateral;
pub mod error;
pub mod event;
pub mod laws;
pub mod ledger;
pub mod ledger_laws;
pub mod organizer;
pub mod pda;
pub mod seeds;
pub mod store;
pub mod ticket;
pub mod transfer;

pub use address::Address;
pub use collateral::{
    check_collateral_offer, unverify_organizer, verify_organizer, UnverifyOrganizer,
    VerifyOrganizer, MIN_COLLATERAL,
};
pub use error::{CustomError, HandlerError};
pub use event::{create_event, CreateEvent, EventAccount, EventTerms};
pub use ledger::{Ledger, LedgerError, Record};
pub use organizer::{initialize_organizer, InitializeOrganizer, OrganizerAccount};
pub use ticket::{
    buy_ticket, buy_ticket_at, check_on_sale, initialize_ticket_account, BuyTicket,
    InitializeTicketAccount, TicketAccount,
};
pub use transfer::Transfer;
