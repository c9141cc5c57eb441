use crate::address::Address;
use crate::error::{CustomError, HandlerError};
use crate::event::{EventAccount, EventView};
use crate::pda::{event_vault_address, program_address, ticket_address};
use crate::seeds::{spec_event_vault_seeds, spec_ticket_seeds};
use crate::transfer::{Transfer, TransferView};
use anchor_lang::prelude::{Clock, ProgramError};
use anchor_lang::solana_program::sysvar::Sysvar;
use vstd::prelude::*;

verus! {

/// The record of one purchase.
#[derive(Clone, Copy, Debug, PartialEq, Eq)]
pub struct TicketAccount {
    /// Who bought the ticket.
    pub buyer: Address,
    /// The address of the event's record.
    pub event: Address,
    /// The buyer's own marker of the purchase. It is not held against a clock.
    pub timestamp: i64,
    /// Stored; no operation sets it.
    pub is_refunded: bool,
}

/// A ticket record, as mathematics.
pub struct TicketView {
    pub buyer: Seq<u8>,
    pub event: Seq<u8>,
    pub timestamp: int,
    pub is_refunded: bool,
}

impl View for TicketAccount {
    type V = TicketView;

    open spec fn view(&self) -> TicketView {
        TicketView {
            buyer: self.buyer@,
            event: self.event@,
            timestamp: self.timestamp as int,
            is_refunded: self.is_refunded,
        }
    }
}

impl TicketAccount {
    /// Bytes of storage that the record's fields take.
    pub const MAX_SIZE: usize = 32 + 32 + 8 + 1;
}

/// The accounts with which a ticket record is prepared.
#[derive(Clone, Debug, PartialEq, Eq)]
pub struct InitializeTicketAccount {
    /// The record being created.
    pub ticket: TicketAccount,
    /// The signer, who pays for the record.
    pub buyer: Address,
    /// The address of the event's record.
    pub event_key: Address,
    /// The event's record.
    pub event: EventAccount,
}

/// The accounts of a purchase.
#[derive(Clone, Debug, PartialEq, Eq)]
pub struct BuyTicket {
    /// The address of the event's record.
    pub event_key: Address,
    /// The event's record.
    pub event: EventAccount,
    /// The signer, who pays for the ticket.
    pub buyer: Address,
    /// The ticket's record.
    pub ticket: TicketAccount,
    /// The vault that holds the event's payments.
    pub event_vault: Address,
}

/// The record as the host hands it out before a purchase: all zero.
pub open spec fn spec_blank_ticket() -> TicketView {
    spec_ticket(Seq::new(32, |i: int| 0u8), Seq::new(32, |i: int| 0u8), 0)
}

impl Default for TicketAccount {
    fn default() -> (blank: TicketAccount)
        ensures
            blank@ == spec_blank_ticket(),
    {
        TicketAccount {
            buyer: Address::default(),
            event: Address::default(),
            timestamp: 0,
            is_refunded: false,
        }
    }
}

impl InitializeTicketAccount {
    /// The accounts with which `buyer` prepares a ticket for the event at
    /// `event_key` under the program `program_id`, and the address of the
    /// ticket's record: the one that the host derives for the event, the buyer
    /// and the timestamp. `None` where the host derives no address.
    pub fn new(
        program_id: &Address,
        event_key: Address,
        event: EventAccount,
        buyer: Address,
        timestamp: i64,
    ) -> (found: Option<(InitializeTicketAccount, Address)>)
        ensures
            match program_address(spec_ticket_seeds(event_key@, buyer@, timestamp), program_id@) {
                Some((address, bump)) => {
                    &&& found matches Some((ctx, key))
                    &&& ctx.ticket@ == spec_blank_ticket()
                    &&& ctx.buyer == buyer
                    &&& ctx.event_key == event_key
                    &&& ctx.event == event
                    &&& key@ == address
                },
                None => found is None,
            },
    {
        match ticket_address(program_id, &event_key, &buyer, timestamp) {
            Some((address, _)) => Some(
                (
                    InitializeTicketAccount {
                        ticket: TicketAccount::default(),
                        buyer,
                        event_key,
                        event,
                    },
                    address,
                ),
            ),
            None => None,
        }
    }
}

impl BuyTicket {
    /// The accounts with which `buyer` buys a ticket for the event at
    /// `event_key` under the program `program_id`: the vault is the one that
    /// the host derives for the event. `None` where the host derives no
    /// address.
    pub fn new(
        program_id: &Address,
        event_key: Address,
        event: EventAccount,
        buyer: Address,
        ticket: TicketAccount,
    ) -> (found: Option<BuyTicket>)
        ensures
            match program_address(spec_event_vault_seeds(event_key@), program_id@) {
                Some((vault, bump)) => {
                    &&& found is Some
                    &&& found->0.event_key == event_key
                    &&& found->0.event == event
                    &&& found->0.buyer == buyer
                    &&& found->0.ticket == ticket
                    &&& found->0.event_vault@ == vault
                },
                None => found is None,
            },
    {
        match event_vault_address(program_id, &event_key) {
            Some((vault, _)) => Some(
                BuyTicket { event_key, event, buyer, ticket, event_vault: vault },
            ),
            None => None,
        }
    }
}

/// The ticket that records a purchase.
pub open spec fn spec_ticket(event_key: Seq<u8>, buyer: Seq<u8>, timestamp: int) -> TicketView {
    TicketView { buyer, event: event_key, timestamp, is_refunded: false }
}

/// Why no ticket is sold for the event whatever the time, if that is so: the
/// event is cancelled, or confirmed, or full, and the first of these that holds
/// is the reason.
pub open spec fn spec_sale_refusal(event: EventView) -> Option<CustomError> {
    if event.is_cancelled {
        Some(CustomError::EventCancelled)
    } else if event.is_confirmed {
        Some(CustomError::EventAlreadyConfirmed)
    } else if event.attendees >= event.maximum_capacity {
        Some(CustomError::EventFull)
    } else {
        None
    }
}

/// The event after a ticket was sold at the time `now`, or the rule that
/// forbids the sale.
pub open spec fn spec_buy_ticket(event: EventView, now: int) -> Result<EventView, CustomError> {
    match spec_sale_refusal(event) {
        Some(e) => Err(e),
        None => if now >= event.deadline {
            Err(CustomError::EventClosed)
        } else {
            Ok(EventView { attendees: event.attendees + 1, ..event })
        },
    }
}

/// The payment for a ticket: its price, from the buyer into the event's vault,
/// signed by the buyer.
pub open spec fn spec_payment(buyer: Seq<u8>, event_vault: Seq<u8>, price: nat) -> TransferView {
    TransferView {
        from: buyer,
        to: event_vault,
        lamports: price,
        signer_seeds: Seq::<Seq<u8>>::empty(),
    }
}

/// Reads the host's clock with `Clock::get` and hands out its
/// `unix_timestamp`, or the host's error. Nothing is claimed of what comes
/// back: two readings may differ.
#[verifier::external_body]
fn clock_unix_timestamp() -> (now: Result<i64, ProgramError>) {
    Clock::get().map(|clock| clock.unix_timestamp)
}

/// Prepares the ticket record of a purchase. `rent_minimum` is the least
/// balance with which the host lets an account exist.
///
/// Where the event's price is below `rent_minimum` the operation fails with
/// `InsufficientCollateral` and changes nothing. Otherwise the record names
/// the buyer, the event's address and the timestamp, and is not refunded.
pub fn initialize_ticket_account(
    ctx: &mut InitializeTicketAccount,
    timestamp: i64,
    rent_minimum: u64,
) -> (result: Result<(), CustomError>)
    ensures
        old(ctx).event.ticket_price >= rent_minimum ==> {
            &&& result is Ok
            &&& final(ctx).ticket@ == spec_ticket(
                old(ctx).event_key@,
                old(ctx).buyer@,
                timestamp as int,
            )
        },
        old(ctx).event.ticket_price < rent_minimum ==> {
            &&& result == Err::<(), CustomError>(CustomError::InsufficientCollateral)
            &&& final(ctx).ticket == old(ctx).ticket
        },
        final(ctx).buyer == old(ctx).buyer,
        final(ctx).event_key == old(ctx).event_key,
        final(ctx).event == old(ctx).event,
{
    if ctx.event.ticket_price < rent_minimum {
        return Err(CustomError::InsufficientCollateral);
    }
    ctx.ticket.buyer = ctx.buyer;
    ctx.ticket.timestamp = timestamp;
    ctx.ticket.event = ctx.event_key;
    ctx.ticket.is_refunded = false;
    Ok(())
}

/// The checks on a sale that need no clock: the event must be neither
/// cancelled nor confirmed, and must have room.
pub fn check_on_sale(event: &EventAccount) -> (result: Result<(), CustomError>)
    ensures
        match spec_sale_refusal(event@) {
            Some(e) => result == Err::<(), CustomError>(e),
            None => result is Ok,
        },
{
    if event.is_cancelled {
        return Err(CustomError::EventCancelled);
    }
    if event.is_confirmed {
        return Err(CustomError::EventAlreadyConfirmed);
    }
    if event.attendees >= event.maximum_capacity {
        return Err(CustomError::EventFull);
    }
    Ok(())
}

/// Sells one ticket at the time `now`.
///
/// The sale is refused, in this order, where the event is cancelled
/// (`EventCancelled`), confirmed (`EventAlreadyConfirmed`), full (`EventFull`),
/// or where `now` has reached the deadline (`EventClosed`); then nothing
/// changes. Otherwise the event counts one more attendee, the ticket record
/// names the buyer, the event's address and the timestamp, and the result is
/// the payment of the price from the buyer into the event's vault.
pub fn buy_ticket_at(ctx: &mut BuyTicket, timestamp: i64, now: i64) -> (result: Result<
    Transfer,
    CustomError,
>)
    ensures
        match spec_buy_ticket(old(ctx).event@, now as int) {
            Ok(event) => {
                &&& result is Ok
                &&& result->Ok_0@ == spec_payment(
                    old(ctx).buyer@,
                    old(ctx).event_vault@,
                    old(ctx).event@.ticket_price,
                )
                &&& final(ctx).event@ == event
                &&& final(ctx).event@.attendees <= final(ctx).event@.maximum_capacity
                &&& final(ctx).ticket@ == spec_ticket(
                    old(ctx).event_key@,
                    old(ctx).buyer@,
                    timestamp as int,
                )
            },
            Err(e) => result == Err::<Transfer, CustomError>(e) && *final(ctx) == *old(ctx),
        },
        old(ctx).event.inv() ==> final(ctx).event.inv(),
        final(ctx).event_key == old(ctx).event_key,
        final(ctx).buyer == old(ctx).buyer,
        final(ctx).event_vault == old(ctx).event_vault,
{
    match check_on_sale(&ctx.event) {
        Err(e) => {
            return Err(e);
        },
        Ok(()) => {},
    }
    if now >= ctx.event.deadline {
        return Err(CustomError::EventClosed);
    }
    let payment = Transfer {
        from: ctx.buyer,
        to: ctx.event_vault,
        lamports: ctx.event.ticket_price,
        signer_seeds: Vec::new(),
    };
    assert(payment.signer_seeds.deep_view() =~= Seq::<Seq<u8>>::empty());
    ctx.ticket.buyer = ctx.buyer;
    ctx.ticket.event = ctx.event_key;
    ctx.ticket.timestamp = timestamp;
    ctx.ticket.is_refunded = false;
    ctx.event.attendees = ctx.event.attendees + 1;
    Ok(payment)
}

/// Sells one ticket at the time that the host's clock shows.
///
/// Where the event is cancelled, confirmed or full, the sale is refused with
/// that rule before the clock is read. Where the clock cannot be read, the
/// host's error is handed on. Otherwise the outcome is that of
/// `buy_ticket_at` at the time read. Whenever the result is an error nothing
/// has changed.
pub fn buy_ticket(ctx: &mut BuyTicket, timestamp: i64) -> (result: Result<Transfer, HandlerError>)
    ensures
        match spec_sale_refusal(old(ctx).event@) {
            Some(e) => result == Err::<Transfer, HandlerError>(HandlerError::Custom(e)),
            None => match result {
                Ok(payment) => exists|now: i64|
                    {
                        &&& now < old(ctx).event.deadline
                        &&& #[trigger] spec_buy_ticket(old(ctx).event@, now as int) == Ok::<
                            EventView,
                            CustomError,
                        >(final(ctx).event@)
                        &&& payment@ == spec_payment(
                            old(ctx).buyer@,
                            old(ctx).event_vault@,
                            old(ctx).event@.ticket_price,
                        )
                        &&& final(ctx).ticket@ == spec_ticket(
                            old(ctx).event_key@,
                            old(ctx).buyer@,
                            timestamp as int,
                        )
                    },
                Err(HandlerError::Custom(e)) => e == CustomError::EventClosed,
                Err(HandlerError::Program(_)) => true,
                Err(HandlerError::TextTooLong) => false,
            },
        },
        result is Err ==> *final(ctx) == *old(ctx),
        old(ctx).event.inv() ==> final(ctx).event.inv(),
        final(ctx).event_key == old(ctx).event_key,
        final(ctx).buyer == old(ctx).buyer,
        final(ctx).event_vault == old(ctx).event_vault,
{
    match check_on_sale(&ctx.event) {
        Err(e) => {
            return Err(HandlerError::Custom(e));
        },
        Ok(()) => {},
    }
    let now: i64 = match clock_unix_timestamp() {
        Ok(time) => time,
        Err(e) => {
            return Err(HandlerError::Program(e));
        },
    };
    match buy_ticket_at(ctx, timestamp, now) {
        Ok(payment) => Ok(payment),
        Err(e) => Err(HandlerError::Custom(e)),
    }
}

} // verus!
