use crate::address::Address;
use crate::collateral::{
    spec_deposit, spec_refund, spec_unverify_organizer, spec_verify_organizer,
    unverify_organizer, verify_organizer, UnverifyOrganizer, VerifyOrganizer,
};
use crate::error::CustomError;
use crate::event::{
    create_event, spec_count_event, CreateEvent, EventAccount, EventTerms, EventTermsView,
    EventView,
};
use crate::ledger_laws::law_operations_keep_the_invariant;
use crate::organizer::{
    initialize_organizer, spec_initialize_organizer, InitializeOrganizer, OrganizerAccount,
    OrganizerView,
};
use crate::pda::{organizer_address, program_address, ticket_address};
use crate::seeds::{
    spec_collateral_vault_seeds, spec_event_seeds, spec_event_vault_seeds, spec_organizer_seeds,
    spec_ticket_seeds,
};
use crate::store::Store;
use crate::ticket::{
    buy_ticket_at, spec_buy_ticket, spec_payment, spec_ticket, BuyTicket, TicketAccount,
    TicketView,
};
use crate::transfer::{
    apply_transfer, balance_of, can_transfer, Balances, Transfer, TransferView,
};
use vstd::prelude::*;

verus! {

/// What an address can hold besides value.
#[derive(Clone, Debug, PartialEq, Eq)]
pub enum Record {
    Organizer(OrganizerAccount),
    Event(EventAccount),
    Ticket(TicketAccount),
}

/// A record, as mathematics.
pub enum RecordView {
    Organizer(OrganizerView),
    Event(EventView),
    Ticket(TicketView),
}

impl View for Record {
    type V = RecordView;

    open spec fn view(&self) -> RecordView {
        match *self {
            Record::Organizer(organizer) => RecordView::Organizer(organizer@),
            Record::Event(event) => RecordView::Event(event@),
            Record::Ticket(ticket) => RecordView::Ticket(ticket@),
        }
    }
}

/// Why the ledger did not commit an operation.
#[derive(Clone, Copy, Debug, PartialEq, Eq)]
pub enum LedgerError {
    /// A business rule was broken.
    Custom(CustomError),
    /// The authority's address for an organizer record holds a record already.
    AlreadyRegistered,
    /// The address of a record to be created holds another record.
    AddressInUse,
    /// The address named holds no record of the kind needed.
    AccountNotFound,
    /// The payer holds less than the operation moves.
    InsufficientFunds,
    /// A count or a balance has no room to grow.
    Overflow,
    /// No address derives from the labels.
    NoAddress,
    /// A text field is longer than the bytes its record reserves for it.
    TextTooLong,
}

/// Records and balances in memory, with a clock: a host for the operations.
/// Each operation commits whole or leaves the ledger as it was.
pub struct Ledger {
    program_id: Address,
    now: i64,
    rent_minimum: u64,
    balances: Store<u64>,
    records: Store<Record>,
}

/// A ledger, as mathematics.
pub struct LedgerView {
    /// The program under which addresses derive.
    pub program_id: Seq<u8>,
    /// What the clock shows.
    pub now: int,
    /// The least balance with which a vault can exist.
    pub rent_minimum: nat,
    /// What each address holds.
    pub balances: Balances,
    /// The record at each address that has one.
    pub records: Map<Seq<u8>, RecordView>,
}

impl LedgerView {
    /// The organizer record at `address`, if one is there.
    pub open spec fn organizer_at(self, address: Seq<u8>) -> Option<OrganizerView> {
        if self.records.contains_key(address) {
            match self.records[address] {
                RecordView::Organizer(organizer) => Some(organizer),
                _ => None,
            }
        } else {
            None
        }
    }

    /// The event record at `address`, if one is there.
    pub open spec fn event_at(self, address: Seq<u8>) -> Option<EventView> {
        if self.records.contains_key(address) {
            match self.records[address] {
                RecordView::Event(event) => Some(event),
                _ => None,
            }
        } else {
            None
        }
    }

    /// The ticket record at `address`, if one is there.
    pub open spec fn ticket_at(self, address: Seq<u8>) -> Option<TicketView> {
        if self.records.contains_key(address) {
            match self.records[address] {
                RecordView::Ticket(ticket) => Some(ticket),
                _ => None,
            }
        } else {
            None
        }
    }

    /// No address holds more than a balance can count. This holds of every
    /// ledger in memory.
    pub open spec fn bounded(self) -> bool {
        forall|address: Seq<u8>| #[trigger] balance_of(self.balances, address) <= u64::MAX
    }

    /// Every organizer is verified exactly while it has collateral, and no
    /// event has more attendees than room or a text too long.
    pub open spec fn inv(self) -> bool {
        forall|address: Seq<u8>| #[trigger]
            self.records.contains_key(address) ==> match self.records[address] {
                RecordView::Organizer(organizer) => organizer.inv(),
                RecordView::Event(event) => event.inv(),
                RecordView::Ticket(_) => true,
            }
    }

    /// The ledger after `authority` has registered, and the address of its
    /// record; or why it cannot.
    pub open spec fn register(self, authority: Seq<u8>) -> Result<
        (LedgerView, Seq<u8>),
        LedgerError,
    > {
        match program_address(spec_organizer_seeds(authority), self.program_id) {
            None => Err(LedgerError::NoAddress),
            Some((address, _)) => if self.records.contains_key(address) {
                Err(LedgerError::AlreadyRegistered)
            } else {
                Ok(
                    (
                        LedgerView {
                            records: self.records.insert(
                                address,
                                RecordView::Organizer(spec_initialize_organizer(authority)),
                            ),
                            ..self
                        },
                        address,
                    ),
                )
            },
        }
    }

    /// The ledger after `authority` has created an event on `terms`, and the
    /// address of the event; or why it cannot.
    pub open spec fn create_event(self, authority: Seq<u8>, terms: EventTermsView) -> Result<
        (LedgerView, Seq<u8>),
        LedgerError,
    > {
        match program_address(spec_organizer_seeds(authority), self.program_id) {
            None => Err(LedgerError::NoAddress),
            Some((home, _)) => match self.organizer_at(home) {
                None => Err(LedgerError::AccountNotFound),
                Some(organizer) => match program_address(
                    spec_event_seeds(authority, organizer.event_count as u32),
                    self.program_id,
                ) {
                    None => Err(LedgerError::NoAddress),
                    Some((address, bump)) => if self.records.contains_key(address) {
                        Err(LedgerError::AddressInUse)
                    } else if organizer.event_count >= u32::MAX {
                        Err(LedgerError::Overflow)
                    } else if !terms.fit() {
                        Err(LedgerError::TextTooLong)
                    } else {
                        Ok(
                            (
                                LedgerView {
                                    records: self.records.insert(
                                        address,
                                        RecordView::Event(terms.event(authority, bump)),
                                    ).insert(
                                        home,
                                        RecordView::Organizer(spec_count_event(organizer)),
                                    ),
                                    ..self
                                },
                                address,
                            ),
                        )
                    },
                },
            },
        }
    }

    /// The ledger after `authority` has posted `amount` as collateral; or why it
    /// cannot.
    pub open spec fn verify(self, authority: Seq<u8>, amount: nat) -> Result<
        LedgerView,
        LedgerError,
    > {
        match program_address(spec_organizer_seeds(authority), self.program_id) {
            None => Err(LedgerError::NoAddress),
            Some((home, _)) => match self.organizer_at(home) {
                None => Err(LedgerError::AccountNotFound),
                Some(organizer) => match program_address(
                    spec_collateral_vault_seeds(authority),
                    self.program_id,
                ) {
                    None => Err(LedgerError::NoAddress),
                    Some((vault, _)) => match spec_verify_organizer(
                        organizer,
                        amount,
                        self.rent_minimum,
                    ) {
                        Err(e) => Err(LedgerError::Custom(e)),
                        Ok(verified) => match spec_move(
                            self.balances,
                            spec_deposit(authority, vault, amount),
                        ) {
                            Err(e) => Err(e),
                            Ok(balances) => Ok(
                                LedgerView {
                                    balances,
                                    records: self.records.insert(
                                        home,
                                        RecordView::Organizer(verified),
                                    ),
                                    ..self
                                },
                            ),
                        },
                    },
                },
            },
        }
    }

    /// The ledger after `authority` has withdrawn its collateral; or why it
    /// cannot.
    pub open spec fn unverify(self, authority: Seq<u8>) -> Result<
        LedgerView,
        LedgerError,
    > {
        match program_address(spec_organizer_seeds(authority), self.program_id) {
            None => Err(LedgerError::NoAddress),
            Some((home, _)) => match self.organizer_at(home) {
                None => Err(LedgerError::AccountNotFound),
                Some(organizer) => match program_address(
                    spec_collateral_vault_seeds(authority),
                    self.program_id,
                ) {
                    None => Err(LedgerError::NoAddress),
                    Some((vault, bump)) => match spec_unverify_organizer(organizer) {
                        Err(e) => Err(LedgerError::Custom(e)),
                        Ok(unverified) => match spec_move(
                            self.balances,
                            spec_refund(authority, vault, organizer.collateral_amount, bump),
                        ) {
                            Err(e) => Err(e),
                            Ok(balances) => Ok(
                                LedgerView {
                                    balances,
                                    records: self.records.insert(
                                        home,
                                        RecordView::Organizer(unverified),
                                    ),
                                    ..self
                                },
                            ),
                        },
                    },
                },
            },
        }
    }

    /// The ledger after `buyer` has bought a ticket for the event at `event`
    /// under the marker `timestamp`, and the address of the ticket; or why it
    /// cannot. A ticket that is already at that address is written anew.
    pub open spec fn buy_ticket(self, event: Seq<u8>, buyer: Seq<u8>, timestamp: i64) -> Result<
        (LedgerView, Seq<u8>),
        LedgerError,
    > {
        match self.event_at(event) {
            None => Err(LedgerError::AccountNotFound),
            Some(record) => match program_address(
                spec_ticket_seeds(event, buyer, timestamp),
                self.program_id,
            ) {
                None => Err(LedgerError::NoAddress),
                Some((address, _)) => if self.records.contains_key(address) && self.ticket_at(
                    address,
                ) is None {
                    Err(LedgerError::AddressInUse)
                } else {
                    match program_address(spec_event_vault_seeds(event), self.program_id) {
                        None => Err(LedgerError::NoAddress),
                        Some((vault, _)) => match spec_buy_ticket(record, self.now) {
                            Err(e) => Err(LedgerError::Custom(e)),
                            Ok(sold) => match spec_move(
                                self.balances,
                                spec_payment(buyer, vault, record.ticket_price),
                            ) {
                                Err(e) => Err(e),
                                Ok(balances) => Ok(
                                    (
                                        LedgerView {
                                            balances,
                                            records: self.records.insert(
                                                address,
                                                RecordView::Ticket(
                                                    spec_ticket(event, buyer, timestamp as int),
                                                ),
                                            ).insert(event, RecordView::Event(sold)),
                                            ..self
                                        },
                                        address,
                                    ),
                                ),
                            },
                        },
                    }
                },
            },
        }
    }
}

/// The balances after `address` has received `lamports` from outside the
/// ledger; or `Overflow` where the balance has no room for them.
pub open spec fn spec_fund(balances: Balances, address: Seq<u8>, lamports: nat) -> Result<
    Balances,
    LedgerError,
> {
    if balance_of(balances, address) + lamports > u64::MAX {
        Err(LedgerError::Overflow)
    } else {
        Ok(balances.insert(address, balance_of(balances, address) + lamports))
    }
}

/// The balances after the transfer; or `InsufficientFunds` where the payer
/// holds too little, or `Overflow` where the receiver has no room.
pub open spec fn spec_move(balances: Balances, transfer: TransferView) -> Result<
    Balances,
    LedgerError,
> {
    if !can_transfer(balances, transfer) {
        Err(LedgerError::InsufficientFunds)
    } else if transfer.from != transfer.to && balance_of(balances, transfer.to)
        + transfer.lamports > u64::MAX {
        Err(LedgerError::Overflow)
    } else {
        Ok(apply_transfer(balances, transfer))
    }
}

impl View for Ledger {
    type V = LedgerView;

    closed spec fn view(&self) -> LedgerView {
        LedgerView {
            program_id: self.program_id@,
            now: self.now as int,
            rent_minimum: self.rent_minimum as nat,
            balances: self.balances.map().map_values(|lamports: u64| lamports as nat),
            records: self.records.map().map_values(|record: Record| record@),
        }
    }
}

impl Ledger {
    /// An empty ledger for the program `program_id`, whose clock shows `now`.
    pub fn new(program_id: Address, now: i64, rent_minimum: u64) -> (ledger: Ledger)
        ensures
            ledger@ == (LedgerView {
                program_id: program_id@,
                now: now as int,
                rent_minimum: rent_minimum as nat,
                balances: Map::empty(),
                records: Map::empty(),
            }),
            ledger@.inv(),
    {
        let ledger = Ledger {
            program_id,
            now,
            rent_minimum,
            balances: Store::new(),
            records: Store::new(),
        };
        assert(ledger@.balances =~= Map::empty());
        assert(ledger@.records =~= Map::empty());
        ledger
    }

    /// No address of a ledger in memory holds more than a balance can count.
    pub proof fn law_balances_are_bounded(&self)
        ensures
            self@.bounded(),
    {
    }

    /// Sets the clock.
    pub fn set_time(&mut self, now: i64)
        ensures
            final(self)@ == (LedgerView { now: now as int, ..old(self)@ }),
            old(self)@.inv() ==> final(self)@.inv(),
    {
        self.now = now;
    }

    /// What `address` holds.
    pub fn balance(&self, address: &Address) -> (lamports: u64)
        ensures
            lamports == balance_of(self@.balances, address@),
    {
        match self.balances.get(address) {
            Some(lamports) => *lamports,
            None => 0,
        }
    }

    /// The organizer record at `address`, if one is there.
    pub fn organizer(&self, address: &Address) -> (found: Option<OrganizerAccount>)
        ensures
            match found {
                Some(organizer) => self@.organizer_at(address@) == Some(organizer@),
                None => self@.organizer_at(address@) is None,
            },
    {
        match self.records.get(address) {
            Some(Record::Organizer(organizer)) => Some(*organizer),
            _ => None,
        }
    }

    /// The event record at `address`, if one is there.
    pub fn event(&self, address: &Address) -> (found: Option<EventAccount>)
        ensures
            match found {
                Some(event) => self@.event_at(address@) == Some(event@),
                None => self@.event_at(address@) is None,
            },
    {
        match self.records.get(address) {
            Some(Record::Event(event)) => Some(event.clone()),
            _ => None,
        }
    }

    /// The ticket record at `address`, if one is there.
    pub fn ticket(&self, address: &Address) -> (found: Option<TicketAccount>)
        ensures
            match found {
                Some(ticket) => self@.ticket_at(address@) == Some(ticket@),
                None => self@.ticket_at(address@) is None,
            },
    {
        match self.records.get(address) {
            Some(Record::Ticket(ticket)) => Some(*ticket),
            _ => None,
        }
    }

    /// Registers `authority`, whom the caller has authenticated: creates its
    /// organizer record, without events, verification or collateral, at the
    /// address that derives from the authority.
    ///
    /// Fails with `NoAddress` where no address derives, and with
    /// `AlreadyRegistered` where the address holds a record.
    pub fn register(&mut self, authority: &Address) -> (result: Result<Address, LedgerError>)
        ensures
            match old(self)@.register(authority@) {
                Ok((ledger, address)) => {
                    &&& final(self)@ == ledger
                    &&& result matches Ok(key)
                    &&& key@ == address
                },
                Err(e) => result == Err::<Address, LedgerError>(e) && final(self)@ == old(self)@,
            },
            old(self)@.inv() ==> final(self)@.inv(),
    {
        let address = match organizer_address(&self.program_id, authority) {
            Some((address, _)) => address,
            None => {
                return Err(LedgerError::NoAddress);
            },
        };
        if self.records.contains(&address) {
            return Err(LedgerError::AlreadyRegistered);
        }
        let mut accounts = InitializeOrganizer::new(*authority);
        let _ = initialize_organizer(&mut accounts);
        self.records.insert(address, Record::Organizer(accounts.organizer));
        assert(self@.records =~= old(self)@.records.insert(
            address@,
            RecordView::Organizer(spec_initialize_organizer(authority@)),
        ));
        Ok(address)
    }

    /// Gives `address` `lamports` from outside the ledger.
    ///
    /// Fails with `Overflow` where the balance has no room for them.
    pub fn fund(&mut self, address: &Address, lamports: u64) -> (result: Result<(), LedgerError>)
        ensures
            match spec_fund(old(self)@.balances, address@, lamports as nat) {
                Ok(balances) => result is Ok && final(self)@ == (LedgerView {
                    balances,
                    ..old(self)@
                }),
                Err(e) => result == Err::<(), LedgerError>(e) && final(self)@ == old(self)@,
            },
            old(self)@.inv() ==> final(self)@.inv(),
    {
        let held: u64 = self.balance(address);
        if lamports > u64::MAX - held {
            return Err(LedgerError::Overflow);
        }
        self.balances.insert(*address, held + lamports);
        assert(self@.balances =~= old(self)@.balances.insert(
            address@,
            (balance_of(old(self)@.balances, address@) + lamports) as nat,
        ));
        Ok(())
    }

    fn move_value(&mut self, transfer: &Transfer) -> (result: Result<(), LedgerError>)
        ensures
            match spec_move(old(self)@.balances, transfer@) {
                Ok(balances) => result is Ok && final(self)@ == (LedgerView {
                    balances,
                    ..old(self)@
                }),
                Err(e) => result == Err::<(), LedgerError>(e) && final(self)@ == old(self)@,
            },
    {
        let paid: u64 = self.balance(&transfer.from);
        if paid < transfer.lamports {
            return Err(LedgerError::InsufficientFunds);
        }
        if transfer.from.same(&transfer.to) {
            return Ok(());
        }
        let received: u64 = self.balance(&transfer.to);
        if transfer.lamports > u64::MAX - received {
            return Err(LedgerError::Overflow);
        }
        self.balances.insert(transfer.from, paid - transfer.lamports);
        self.balances.insert(transfer.to, received + transfer.lamports);
        assert(self@.balances =~= apply_transfer(old(self)@.balances, transfer@));
        Ok(())
    }

    /// Creates an event on `terms` for `authority`, whom the caller has
    /// authenticated, and hands out the event's address: the one that derives
    /// from the authority and its present event count. The new event has no
    /// attendees; the organizer's count grows by one.
    ///
    /// Fails with `NoAddress` where an address does not derive, with
    /// `AccountNotFound` where the authority has not registered, with
    /// `AddressInUse` where the event's address holds a record, with `Overflow`
    /// where the count has no successor, and with `TextTooLong` where a text
    /// does not fit.
    pub fn create_event(&mut self, authority: &Address, terms: EventTerms) -> (result: Result<
        Address,
        LedgerError,
    >)
        ensures
            match old(self)@.create_event(authority@, terms@) {
                Ok((ledger, address)) => {
                    &&& final(self)@ == ledger
                    &&& result matches Ok(key)
                    &&& key@ == address
                },
                Err(e) => result == Err::<Address, LedgerError>(e) && final(self)@ == old(self)@,
            },
            old(self)@.inv() ==> final(self)@.inv(),
    {
        proof {
            if self@.inv() {
                law_operations_keep_the_invariant(
                    self@,
                    authority@,
                    terms@,
                    0,
                    authority@,
                    authority@,
                    0,
                );
            }
        }
        let home = match organizer_address(&self.program_id, authority) {
            Some((home, _)) => home,
            None => {
                return Err(LedgerError::NoAddress);
            },
        };
        let organizer = match self.organizer(&home) {
            Some(organizer) => organizer,
            None => {
                return Err(LedgerError::AccountNotFound);
            },
        };
        let (mut accounts, address) = match CreateEvent::new(
            &self.program_id,
            organizer,
            *authority,
        ) {
            Some(found) => found,
            None => {
                return Err(LedgerError::NoAddress);
            },
        };
        if self.records.contains(&address) {
            return Err(LedgerError::AddressInUse);
        }
        if organizer.event_count == u32::MAX {
            return Err(LedgerError::Overflow);
        }
        let ghost bump = accounts.event_bump;
        match create_event(
            &mut accounts,
            terms.title,
            terms.description,
            terms.deadline,
            terms.ticket_price,
            terms.quorum,
            terms.maximum_capacity,
            terms.city,
            terms.address,
            terms.image_url,
        ) {
            Ok(()) => {},
            Err(_) => {
                return Err(LedgerError::TextTooLong);
            },
        }
        self.records.insert(address, Record::Event(accounts.event));
        self.records.insert(home, Record::Organizer(accounts.organizer));
        assert(self@.records =~= old(self)@.records.insert(
            address@,
            RecordView::Event(terms@.event(authority@, bump)),
        ).insert(home@, RecordView::Organizer(spec_count_event(organizer@))));
        Ok(address)
    }

    /// Verifies `authority`, whom the caller has authenticated, with `amount`
    /// of collateral: the amount moves from the authority's balance into its
    /// collateral vault, and the record is verified and remembers the amount.
    ///
    /// Fails with `NoAddress` where an address does not derive, with
    /// `AccountNotFound` where the authority has not registered, with the rule
    /// that forbids the verification, with `InsufficientFunds` where the
    /// authority holds less than the amount, and with `Overflow` where the
    /// vault has no room.
    pub fn verify(&mut self, authority: &Address, amount: u64) -> (result: Result<
        (),
        LedgerError,
    >)
        ensures
            match old(self)@.verify(authority@, amount as nat) {
                Ok(ledger) => result is Ok && final(self)@ == ledger,
                Err(e) => result == Err::<(), LedgerError>(e) && final(self)@ == old(self)@,
            },
            old(self)@.inv() ==> final(self)@.inv(),
    {
        proof {
            if self@.inv() {
                law_operations_keep_the_invariant(
                    self@,
                    authority@,
                    arbitrary(),
                    amount as nat,
                    authority@,
                    authority@,
                    0,
                );
            }
        }
        let home = match organizer_address(&self.program_id, authority) {
            Some((home, _)) => home,
            None => {
                return Err(LedgerError::NoAddress);
            },
        };
        let organizer = match self.organizer(&home) {
            Some(organizer) => organizer,
            None => {
                return Err(LedgerError::AccountNotFound);
            },
        };
        let mut accounts = match VerifyOrganizer::new(&self.program_id, organizer, *authority) {
            Some(accounts) => accounts,
            None => {
                return Err(LedgerError::NoAddress);
            },
        };
        let deposit = match verify_organizer(&mut accounts, amount, self.rent_minimum) {
            Ok(deposit) => deposit,
            Err(e) => {
                return Err(LedgerError::Custom(e));
            },
        };
        match self.move_value(&deposit) {
            Ok(()) => {},
            Err(e) => {
                return Err(e);
            },
        }
        self.records.insert(home, Record::Organizer(accounts.organizer));
        assert(self@.records =~= old(self)@.records.insert(
            home@,
            RecordView::Organizer(accounts.organizer@),
        ));
        Ok(())
    }

    /// Withdraws the whole collateral of `authority`, whom the caller has
    /// authenticated: it moves from the collateral vault back to the
    /// authority's balance, and the record is unverified without collateral.
    ///
    /// Fails with `NoAddress` where an address does not derive, with
    /// `AccountNotFound` where the authority has not registered, with the rule
    /// that forbids the withdrawal, with `InsufficientFunds` where the vault
    /// holds less than the collateral, and with `Overflow` where the
    /// authority's balance has no room.
    pub fn unverify(&mut self, authority: &Address) -> (result: Result<(), LedgerError>)
        ensures
            match old(self)@.unverify(authority@) {
                Ok(ledger) => result is Ok && final(self)@ == ledger,
                Err(e) => result == Err::<(), LedgerError>(e) && final(self)@ == old(self)@,
            },
            old(self)@.inv() ==> final(self)@.inv(),
    {
        proof {
            if self@.inv() {
                law_operations_keep_the_invariant(
                    self@,
                    authority@,
                    arbitrary(),
                    0,
                    authority@,
                    authority@,
                    0,
                );
            }
        }
        let home = match organizer_address(&self.program_id, authority) {
            Some((home, _)) => home,
            None => {
                return Err(LedgerError::NoAddress);
            },
        };
        let organizer = match self.organizer(&home) {
            Some(organizer) => organizer,
            None => {
                return Err(LedgerError::AccountNotFound);
            },
        };
        let mut accounts = match UnverifyOrganizer::new(&self.program_id, organizer, *authority) {
            Some(accounts) => accounts,
            None => {
                return Err(LedgerError::NoAddress);
            },
        };
        let refund = match unverify_organizer(&mut accounts) {
            Ok(refund) => refund,
            Err(e) => {
                return Err(LedgerError::Custom(e));
            },
        };
        match self.move_value(&refund) {
            Ok(()) => {},
            Err(e) => {
                return Err(e);
            },
        }
        self.records.insert(home, Record::Organizer(accounts.organizer));
        assert(self@.records =~= old(self)@.records.insert(
            home@,
            RecordView::Organizer(accounts.organizer@),
        ));
        Ok(())
    }

    /// Sells `buyer`, whom the caller has authenticated, one ticket for the
    /// event at `event`, at the time the clock shows, and hands out the
    /// ticket's address: the one that derives from the event, the buyer and
    /// `timestamp`. The price moves from the buyer's balance into the event's
    /// vault, the ticket record is written, anew where it was there already,
    /// and the event counts one more attendee.
    ///
    /// Fails with `AccountNotFound` where `event` holds no event, with
    /// `NoAddress` where an address does not derive, with `AddressInUse` where
    /// the ticket's address holds a record that is no ticket, with the rule
    /// that forbids the sale, with `InsufficientFunds` where the buyer holds
    /// less than the price, and with `Overflow` where the vault has no room.
    pub fn buy_ticket(&mut self, event: &Address, buyer: &Address, timestamp: i64) -> (result:
        Result<Address, LedgerError>)
        ensures
            match old(self)@.buy_ticket(event@, buyer@, timestamp) {
                Ok((ledger, address)) => {
                    &&& final(self)@ == ledger
                    &&& result matches Ok(key)
                    &&& key@ == address
                },
                Err(e) => result == Err::<Address, LedgerError>(e) && final(self)@ == old(self)@,
            },
            old(self)@.inv() ==> final(self)@.inv(),
    {
        proof {
            if self@.inv() {
                law_operations_keep_the_invariant(
                    self@,
                    event@,
                    arbitrary(),
                    0,
                    event@,
                    buyer@,
                    timestamp,
                );
            }
        }
        let record = match self.event(event) {
            Some(record) => record,
            None => {
                return Err(LedgerError::AccountNotFound);
            },
        };
        let address = match ticket_address(&self.program_id, event, buyer, timestamp) {
            Some((address, _)) => address,
            None => {
                return Err(LedgerError::NoAddress);
            },
        };
        let ticket = match self.ticket(&address) {
            Some(ticket) => ticket,
            None => {
                if self.records.contains(&address) {
                    return Err(LedgerError::AddressInUse);
                }
                TicketAccount::default()
            },
        };
        let mut accounts = match BuyTicket::new(&self.program_id, *event, record, *buyer, ticket) {
            Some(accounts) => accounts,
            None => {
                return Err(LedgerError::NoAddress);
            },
        };
        let payment = match buy_ticket_at(&mut accounts, timestamp, self.now) {
            Ok(payment) => payment,
            Err(e) => {
                return Err(LedgerError::Custom(e));
            },
        };
        match self.move_value(&payment) {
            Ok(()) => {},
            Err(e) => {
                return Err(e);
            },
        }
        self.records.insert(address, Record::Ticket(accounts.ticket));
        self.records.insert(*event, Record::Event(accounts.event));
        assert(self@.records =~= old(self)@.records.insert(
            address@,
            RecordView::Ticket(accounts.ticket@),
        ).insert(event@, RecordView::Event(accounts.event@)));
        Ok(address)
    }
}

} // verus!
