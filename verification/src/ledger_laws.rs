use crate::error::CustomError;
use crate::event::EventTermsView;
use crate::ledger::{LedgerError, LedgerView};
use crate::organizer::spec_initialize_organizer;
use crate::pda::program_address;
use crate::seeds::spec_organizer_seeds;
use crate::ticket::spec_sale_refusal;
use crate::transfer::balance_of;
use vstd::prelude::*;

verus! {

/// The ledger after `authority` has created one event on each of `terms`, in
/// order, and the addresses of those events; `None` where one of the
/// creations fails.
pub open spec fn spec_create_events(
    ledger: LedgerView,
    authority: Seq<u8>,
    terms: Seq<EventTermsView>,
) -> Option<(LedgerView, Seq<Seq<u8>>)>
    decreases terms.len(),
{
    if terms.len() == 0 {
        Some((ledger, Seq::empty()))
    } else {
        match spec_create_events(ledger, authority, terms.drop_last()) {
            None => None,
            Some((before, addresses)) => match before.create_event(authority, terms.last()) {
                Err(_) => None,
                Ok((after, address)) => Some((after, addresses.push(address))),
            },
        }
    }
}

/// The address of the organizer record of `authority`; arbitrary where none
/// derives.
pub open spec fn home_of(ledger: LedgerView, authority: Seq<u8>) -> Seq<u8> {
    match program_address(spec_organizer_seeds(authority), ledger.program_id) {
        Some((address, _)) => address,
        None => arbitrary(),
    }
}

/// Every operation keeps the ledger's invariant: whatever it commits, every
/// organizer is still verified exactly while it has collateral, and no event
/// has more attendees than room.
pub proof fn law_operations_keep_the_invariant(
    ledger: LedgerView,
    authority: Seq<u8>,
    terms: EventTermsView,
    amount: nat,
    event: Seq<u8>,
    buyer: Seq<u8>,
    timestamp: i64,
)
    requires
        ledger.inv(),
    ensures
        ledger.register(authority) matches Ok((after, _)) ==> after.inv(),
        ledger.create_event(authority, terms) matches Ok((after, _)) ==> after.inv(),
        ledger.verify(authority, amount) matches Ok(after) ==> after.inv(),
        ledger.unverify(authority) matches Ok(after) ==> after.inv(),
        ledger.buy_ticket(event, buyer, timestamp) matches Ok((after, _)) ==> after.inv(),
{
    if ledger.create_event(authority, terms) matches Ok((after, _)) {
        assert(ledger.records.contains_key(home_of(ledger, authority)));
    }
    if ledger.verify(authority, amount) matches Ok(after) {
        assert(ledger.records.contains_key(home_of(ledger, authority)));
    }
    if ledger.unverify(authority) matches Ok(after) {
        assert(ledger.records.contains_key(home_of(ledger, authority)));
    }
    if ledger.buy_ticket(event, buyer, timestamp) matches Ok((after, _)) {
        assert(ledger.records.contains_key(event));
    }
}

proof fn lemma_creations(
    ledger: LedgerView,
    authority: Seq<u8>,
    terms: Seq<EventTermsView>,
    home: Seq<u8>,
)
    requires
        program_address(spec_organizer_seeds(authority), ledger.program_id) matches Some(
            (address, _),
        ) && address == home,
        ledger.organizer_at(home) is Some,
        spec_create_events(ledger, authority, terms) is Some,
    ensures
        ({
            let (after, addresses) = spec_create_events(ledger, authority, terms)->0;
            &&& after.program_id == ledger.program_id
            &&& after.balances == ledger.balances
            &&& after.organizer_at(home) is Some
            &&& after.organizer_at(home)->0.event_count == ledger.organizer_at(home)->0.event_count
                + terms.len()
            &&& addresses.len() == terms.len()
            &&& forall|address: Seq<u8>| #[trigger]
                ledger.records.contains_key(address) ==> after.records.contains_key(address)
            &&& forall|i: int|
                0 <= i < addresses.len() ==> {
                    &&& !ledger.records.contains_key(#[trigger] addresses[i])
                    &&& after.event_at(addresses[i]) matches Some(event)
                    &&& event.organizer == authority
                    &&& event.attendees == 0
                }
            &&& forall|i: int, j: int|
                0 <= i < j < addresses.len() ==> #[trigger] addresses[i] != #[trigger] addresses[j]
        }),
    decreases terms.len(),
{
    if terms.len() > 0 {
        lemma_creations(ledger, authority, terms.drop_last(), home);
        let (before, earlier) = spec_create_events(ledger, authority, terms.drop_last())->0;
        let (after, addresses) = spec_create_events(ledger, authority, terms)->0;
        let address = addresses.last();
        assert(before.create_event(authority, terms.last()) matches Ok((l, a)) && l == after
            && a == address);
        assert(!before.records.contains_key(address));
        assert(address != home);
        assert forall|i: int| 0 <= i < addresses.len() implies {
            &&& !ledger.records.contains_key(#[trigger] addresses[i])
            &&& after.event_at(addresses[i]) matches Some(event)
            &&& event.organizer == authority
            &&& event.attendees == 0
        } by {
            if i < earlier.len() {
                assert(addresses[i] == earlier[i]);
                assert(before.records.contains_key(earlier[i]));
                assert(earlier[i] != home);
            }
        }
        assert forall|i: int, j: int| 0 <= i < j < addresses.len() implies #[trigger] addresses[i]
            != #[trigger] addresses[j] by {
            assert(addresses[i] == earlier[i]);
            assert(before.records.contains_key(earlier[i]));
            if j < earlier.len() {
                assert(addresses[j] == earlier[j]);
            }
        }
    }
}

/// Monotonic sequencing: where an authority registers and then creates one
/// event after the other, its event count is the number of events created,
/// every event stands at its own address, different from the addresses of
/// the others, names the authority as its organizer and has no attendees.
pub proof fn law_sequencing(ledger: LedgerView, authority: Seq<u8>, terms: Seq<EventTermsView>)
    requires
        ledger.register(authority) matches Ok((registered, _)) && spec_create_events(
            registered,
            authority,
            terms,
        ) is Some,
    ensures
        ({
            let (registered, home) = ledger.register(authority)->Ok_0;
            let (after, addresses) = spec_create_events(registered, authority, terms)->0;
            &&& after.organizer_at(home) is Some
            &&& after.organizer_at(home)->0.event_count == terms.len()
            &&& addresses.len() == terms.len()
            &&& forall|i: int|
                0 <= i < addresses.len() ==> {
                    &&& after.event_at(#[trigger] addresses[i]) matches Some(event)
                    &&& event.organizer == authority
                    &&& event.attendees == 0
                }
            &&& forall|i: int, j: int|
                0 <= i < j < addresses.len() ==> #[trigger] addresses[i] != #[trigger] addresses[j]
        }),
{
    let (registered, home) = ledger.register(authority)->Ok_0;
    assert(registered.organizer_at(home) == Some(spec_initialize_organizer(authority)));
    lemma_creations(registered, authority, terms, home);
}

/// Verification duality on the ledger: after a verification or a withdrawal
/// that commits, the organizer's record is verified exactly if it has
/// collateral.
pub proof fn law_duality(ledger: LedgerView, authority: Seq<u8>, amount: nat, home: Seq<u8>)
    requires
        program_address(spec_organizer_seeds(authority), ledger.program_id) matches Some(
            (address, _),
        ) && address == home,
    ensures
        ledger.verify(authority, amount) matches Ok(after) ==> {
            &&& after.organizer_at(home) matches Some(organizer)
            &&& organizer.is_verified
            &&& organizer.collateral_amount == amount
            &&& amount > 0
        },
        ledger.unverify(authority) matches Ok(after) ==> {
            &&& after.organizer_at(home) matches Some(organizer)
            &&& !organizer.is_verified
            &&& organizer.collateral_amount == 0
        },
{
}

/// Capacity bound on the ledger: a sale that commits leaves the event with one
/// more attendee and no more than it has room for; a full event sells
/// nothing, and where a rule is what refuses the sale of an event that is
/// neither cancelled nor confirmed, the rule is `EventFull`.
pub proof fn law_capacity(ledger: LedgerView, event: Seq<u8>, buyer: Seq<u8>, timestamp: i64)
    requires
        ledger.event_at(event) is Some,
    ensures
        ledger.buy_ticket(event, buyer, timestamp) matches Ok((after, _)) ==> {
            &&& after.event_at(event) matches Some(sold)
            &&& sold.attendees == ledger.event_at(event)->0.attendees + 1
            &&& sold.attendees <= sold.maximum_capacity
        },
        ledger.event_at(event)->0.attendees >= ledger.event_at(event)->0.maximum_capacity
            ==> ledger.buy_ticket(event, buyer, timestamp) is Err,
        ledger.event_at(event)->0.attendees >= ledger.event_at(event)->0.maximum_capacity
            && !ledger.event_at(event)->0.is_cancelled && !ledger.event_at(event)->0.is_confirmed
            ==> (ledger.buy_ticket(event, buyer, timestamp) matches Err(LedgerError::Custom(rule))
            ==> rule == CustomError::EventFull),
{
}

/// Deadline enforcement on the ledger: once the clock has reached an event's
/// deadline no ticket is sold for it, and where a rule is what refuses the
/// sale of an event that is on sale otherwise, the rule is `EventClosed`.
pub proof fn law_deadline(ledger: LedgerView, event: Seq<u8>, buyer: Seq<u8>, timestamp: i64)
    requires
        ledger.event_at(event) is Some,
        ledger.now >= ledger.event_at(event)->0.deadline,
    ensures
        ledger.buy_ticket(event, buyer, timestamp) is Err,
        spec_sale_refusal(ledger.event_at(event)->0) is None ==> (ledger.buy_ticket(event,
            buyer,
            timestamp,
        ) matches Err(LedgerError::Custom(rule)) ==> rule == CustomError::EventClosed),
{
}

/// Collateral round trip on the ledger: where a verification commits, the
/// withdrawal that follows it commits too, the organizer's record is again
/// unverified and without collateral, no other record has changed, and every
/// address holds what it held before the verification.
pub proof fn law_round_trip(
    ledger: LedgerView,
    authority: Seq<u8>,
    amount: nat,
    home: Seq<u8>,
    address: Seq<u8>,
)
    requires
        program_address(spec_organizer_seeds(authority), ledger.program_id) matches Some(
            (derived, _),
        ) && derived == home,
        ledger.bounded(),
        ledger.verify(authority, amount) is Ok,
    ensures
        (ledger.verify(authority, amount)->Ok_0).unverify(authority) is Ok,
        ({
            let before = ledger.organizer_at(home)->0;
            let after = (ledger.verify(authority, amount)->Ok_0).unverify(authority)->Ok_0;
            &&& after.organizer_at(home) == Some(
                crate::organizer::OrganizerView {
                    is_verified: false,
                    collateral_amount: 0,
                    ..before
                },
            )
            &&& before.inv() ==> after.records == ledger.records
            &&& address != home ==> after.records.contains_key(address)
                == ledger.records.contains_key(address)
            &&& address != home && ledger.records.contains_key(address) ==> after.records[address]
                == ledger.records[address]
            &&& balance_of(after.balances, address) == balance_of(ledger.balances, address)
            &&& after.now == ledger.now
        }),
{
    let verified = ledger.verify(authority, amount)->Ok_0;
    assert(verified.organizer_at(home) is Some);
    assert(balance_of(ledger.balances, authority) <= u64::MAX);
    let after = verified.unverify(authority)->Ok_0;
    if ledger.organizer_at(home)->0.inv() {
        assert(ledger.records.contains_key(home));
        assert(after.records =~= ledger.records);
    }
}

} // verus!
