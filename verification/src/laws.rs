use crate::address::Address;
use crate::collateral::{
    spec_deposit, spec_refund, spec_unverify_organizer, spec_verify_organizer,
};
use crate::error::CustomError;
use crate::event::{spec_count_event, EventView};
use crate::organizer::{spec_initialize_organizer, OrganizerView};
use crate::seeds::{
    collateral_vault_label, event_label, event_vault_label, organizer_label,
    spec_collateral_vault_seeds, spec_event_seeds, spec_event_vault_seeds, spec_organizer_seeds,
    spec_ticket_seeds, ticket_label, timestamp_bytes,
};
use crate::ticket::{spec_buy_ticket, spec_sale_refusal};
use crate::transfer::{apply_transfer, balance_of, can_transfer, Balances};
use vstd::bytes::{
    lemma_auto_spec_u32_to_from_le_bytes, lemma_auto_spec_u64_to_from_le_bytes,
    spec_u32_to_le_bytes,
};
use vstd::prelude::*;

verus! {

/// What a label tuple names: a record or a vault, with what identifies it.
pub enum RecordKey {
    Organizer { authority: Seq<u8> },
    Event { authority: Seq<u8>, event_count: u32 },
    Ticket { event: Seq<u8>, buyer: Seq<u8>, timestamp: i64 },
    CollateralVault { authority: Seq<u8> },
    EventVault { event: Seq<u8> },
}

impl RecordKey {
    /// Every address in the key has the 32 bytes of an address.
    pub open spec fn well_formed(self) -> bool {
        match self {
            RecordKey::Organizer { authority } => authority.len() == 32,
            RecordKey::Event { authority, .. } => authority.len() == 32,
            RecordKey::Ticket { event, buyer, .. } => event.len() == 32 && buyer.len() == 32,
            RecordKey::CollateralVault { authority } => authority.len() == 32,
            RecordKey::EventVault { event } => event.len() == 32,
        }
    }

    /// The label tuple from which the address derives.
    pub open spec fn seeds(self) -> Seq<Seq<u8>> {
        match self {
            RecordKey::Organizer { authority } => spec_organizer_seeds(authority),
            RecordKey::Event { authority, event_count } => spec_event_seeds(
                authority,
                event_count,
            ),
            RecordKey::Ticket { event, buyer, timestamp } => spec_ticket_seeds(
                event,
                buyer,
                timestamp,
            ),
            RecordKey::CollateralVault { authority } => spec_collateral_vault_seeds(authority),
            RecordKey::EventVault { event } => spec_event_vault_seeds(event),
        }
    }

    /// The labels written one after the other: the bytes that the host's
    /// derivation digests.
    pub open spec fn preimage(self) -> Seq<u8> {
        self.seeds().flatten()
    }
}

proof fn lemma_timestamp_bytes_injective(s: i64, t: i64)
    ensures
        timestamp_bytes(s) == timestamp_bytes(t) ==> s == t,
{
    lemma_auto_spec_u64_to_from_le_bytes();
    assert((s as u64) == (t as u64) ==> s == t) by (bit_vector);
}

proof fn lemma_count_bytes_injective(m: u32, n: u32)
    ensures
        spec_u32_to_le_bytes(m) == spec_u32_to_le_bytes(n) ==> m == n,
        spec_u32_to_le_bytes(m).len() == 4,
{
    lemma_auto_spec_u32_to_from_le_bytes();
}

/// Two keys with the same label tuple are the same key: no two records or
/// vaults share their labels.
pub proof fn law_label_tuples_identify(k1: RecordKey, k2: RecordKey)
    requires
        k1.seeds() == k2.seeds(),
    ensures
        k1 == k2,
{
    let s1 = k1.seeds();
    let s2 = k2.seeds();
    assert(s1.len() == s2.len());
    assert(s1[0] == s2[0]);
    assert(s1[0][0] == s2[0][0]);
    assert(s1[0].len() == s2[0].len());
    assert(s1[1] == s2[1]);
    match (k1, k2) {
        (
            RecordKey::Event { authority: a1, event_count: n1 },
            RecordKey::Event { authority: a2, event_count: n2 },
        ) => {
            assert(s1[2] == s2[2]);
            lemma_count_bytes_injective(n1, n2);
        },
        (
            RecordKey::Ticket { event: e1, buyer: b1, timestamp: t1 },
            RecordKey::Ticket { event: e2, buyer: b2, timestamp: t2 },
        ) => {
            assert(s1[2] == s2[2]);
            assert(s1[3] == s2[3]);
            lemma_timestamp_bytes_injective(t1, t2);
        },
        _ => {},
    }
}

proof fn lemma_flatten_two(a: Seq<u8>, b: Seq<u8>)
    ensures
        seq![a, b].flatten() == a + b,
{
    let s = seq![a, b];
    assert(s.drop_first() =~= seq![b]);
    assert(seq![b].drop_first() =~= Seq::<Seq<u8>>::empty());
    assert(seq![b].flatten() =~= b + Seq::<Seq<u8>>::empty().flatten());
    assert(s.flatten() =~= a + b);
}

proof fn lemma_flatten_three(a: Seq<u8>, b: Seq<u8>, c: Seq<u8>)
    ensures
        seq![a, b, c].flatten() == a + b + c,
{
    let s = seq![a, b, c];
    assert(s.drop_first() =~= seq![b, c]);
    lemma_flatten_two(b, c);
    assert(s.flatten() =~= a + b + c);
}

proof fn lemma_flatten_four(a: Seq<u8>, b: Seq<u8>, c: Seq<u8>, d: Seq<u8>)
    ensures
        seq![a, b, c, d].flatten() == a + b + c + d,
{
    let s = seq![a, b, c, d];
    assert(s.drop_first() =~= seq![b, c, d]);
    lemma_flatten_three(b, c, d);
    assert(s.flatten() =~= a + b + c + d);
}

/// The bytes that a well-formed key hands to the derivation: its length, its
/// first byte, and how the parts are found in it again.
proof fn lemma_preimage_shape(k: RecordKey)
    requires
        k.well_formed(),
    ensures
        match k {
            RecordKey::Organizer { authority } => {
                &&& k.preimage().len() == 41
                &&& k.preimage()[0] == 111
                &&& k.preimage().subrange(9, 41) == authority
            },
            RecordKey::Event { authority, event_count } => {
                &&& k.preimage().len() == 41
                &&& k.preimage()[0] == 101
                &&& k.preimage().subrange(5, 37) == authority
                &&& k.preimage().subrange(37, 41) == spec_u32_to_le_bytes(event_count)
            },
            RecordKey::Ticket { event, buyer, timestamp } => {
                &&& k.preimage().len() == 78
                &&& k.preimage().subrange(6, 38) == event
                &&& k.preimage().subrange(38, 70) == buyer
                &&& k.preimage().subrange(70, 78) == timestamp_bytes(timestamp)
            },
            RecordKey::CollateralVault { authority } => {
                &&& k.preimage().len() == 48
                &&& k.preimage().subrange(16, 48) == authority
            },
            RecordKey::EventVault { event } => {
                &&& k.preimage().len() == 43
                &&& k.preimage().subrange(11, 43) == event
            },
        },
{
    lemma_auto_spec_u32_to_from_le_bytes();
    lemma_auto_spec_u64_to_from_le_bytes();
    match k {
        RecordKey::Organizer { authority } => {
            lemma_flatten_two(organizer_label(), authority);
            assert(k.preimage().subrange(9, 41) =~= authority);
        },
        RecordKey::Event { authority, event_count } => {
            let count = spec_u32_to_le_bytes(event_count);
            lemma_flatten_three(event_label(), authority, count);
            assert(k.preimage().subrange(5, 37) =~= authority);
            assert(k.preimage().subrange(37, 41) =~= count);
        },
        RecordKey::Ticket { event, buyer, timestamp } => {
            let time = timestamp_bytes(timestamp);
            lemma_flatten_four(ticket_label(), event, buyer, time);
            assert(k.preimage().subrange(6, 38) =~= event);
            assert(k.preimage().subrange(38, 70) =~= buyer);
            assert(k.preimage().subrange(70, 78) =~= time);
        },
        RecordKey::CollateralVault { authority } => {
            lemma_flatten_two(collateral_vault_label(), authority);
            assert(k.preimage().subrange(16, 48) =~= authority);
        },
        RecordKey::EventVault { event } => {
            lemma_flatten_two(event_vault_label(), event);
            assert(k.preimage().subrange(11, 43) =~= event);
        },
    }
}

/// Two well-formed keys whose labels, written one after the other, give the
/// same bytes are the same key: the host's derivation never digests the same
/// bytes for two different records or vaults.
pub proof fn law_preimages_identify(k1: RecordKey, k2: RecordKey)
    requires
        k1.well_formed(),
        k2.well_formed(),
        k1.preimage() == k2.preimage(),
    ensures
        k1 == k2,
{
    lemma_preimage_shape(k1);
    lemma_preimage_shape(k2);
    match (k1, k2) {
        (
            RecordKey::Event { authority: a1, event_count: n1 },
            RecordKey::Event { authority: a2, event_count: n2 },
        ) => {
            lemma_count_bytes_injective(n1, n2);
        },
        (
            RecordKey::Ticket { event: e1, buyer: b1, timestamp: t1 },
            RecordKey::Ticket { event: e2, buyer: b2, timestamp: t2 },
        ) => {
            lemma_timestamp_bytes_injective(t1, t2);
        },
        _ => {},
    }
}

/// The organizer after it has created `n` more events.
pub open spec fn spec_after_events(organizer: OrganizerView, n: nat) -> OrganizerView
    decreases n,
{
    if n == 0 {
        organizer
    } else {
        spec_count_event(spec_after_events(organizer, (n - 1) as nat))
    }
}

/// The key of the event that the organizer creates next: its authority and
/// the count it has reached.
pub open spec fn spec_next_event_key(organizer: OrganizerView) -> RecordKey {
    RecordKey::Event {
        authority: organizer.authority,
        event_count: organizer.event_count as u32,
    }
}

/// Creating events changes nothing of an organizer but its count, which grows
/// by one with each.
pub proof fn law_events_are_counted(organizer: OrganizerView, n: nat)
    ensures
        spec_after_events(organizer, n) == (OrganizerView {
            event_count: organizer.event_count + n,
            ..organizer
        }),
    decreases n,
{
    if n > 0 {
        law_events_are_counted(organizer, (n - 1) as nat);
    }
}

/// Monotonic sequencing: an authority that has created `n` events since it
/// registered has the count `n`, and any two of those events, the one created
/// after `i` others and the one created after `j` others, have different
/// keys, different label tuples and, for an authority of 32 bytes, different
/// bytes for the derivation to digest.
pub proof fn law_monotonic_sequencing(authority: Seq<u8>, n: nat, i: nat, j: nat)
    requires
        i < j < n <= u32::MAX,
    ensures
        spec_after_events(spec_initialize_organizer(authority), n).event_count == n,
        spec_next_event_key(spec_after_events(spec_initialize_organizer(authority), i))
            == (RecordKey::Event { authority, event_count: i as u32 }),
        spec_next_event_key(spec_after_events(spec_initialize_organizer(authority), j))
            == (RecordKey::Event { authority, event_count: j as u32 }),
        spec_event_seeds(authority, i as u32) != spec_event_seeds(authority, j as u32),
        authority.len() == 32 ==> (RecordKey::Event {
            authority,
            event_count: i as u32,
        }).preimage() != (RecordKey::Event { authority, event_count: j as u32 }).preimage(),
{
    let fresh = spec_initialize_organizer(authority);
    law_events_are_counted(fresh, n);
    law_events_are_counted(fresh, i);
    law_events_are_counted(fresh, j);
    let ki = RecordKey::Event { authority, event_count: i as u32 };
    let kj = RecordKey::Event { authority, event_count: j as u32 };
    assert(ki != kj);
    if ki.seeds() == kj.seeds() {
        law_label_tuples_identify(ki, kj);
    }
    if authority.len() == 32 && ki.preimage() == kj.preimage() {
        law_preimages_identify(ki, kj);
    }
}

/// Verification duality: after a verification or a withdrawal that succeeds,
/// the organizer is verified exactly if it has collateral; one that fails
/// leaves the record as it was.
pub proof fn law_verification_duality(organizer: OrganizerView, amount: nat, rent_minimum: nat)
    ensures
        spec_verify_organizer(organizer, amount, rent_minimum) matches Ok(after) ==> after.inv()
            && after.is_verified && after.collateral_amount == amount,
        spec_unverify_organizer(organizer) matches Ok(after) ==> after.inv() && !after.is_verified
            && after.collateral_amount == 0,
{
}

/// Capacity bound: a sale that succeeds leaves no more attendees than the
/// event has room for, and a full event sells nothing: the sale fails, with
/// `EventFull` unless the event is cancelled or confirmed.
pub proof fn law_capacity_bound(event: EventView, now: int)
    ensures
        spec_buy_ticket(event, now) matches Ok(after) ==> after.attendees == event.attendees + 1
            && after.attendees <= after.maximum_capacity,
        event.attendees >= event.maximum_capacity ==> spec_buy_ticket(event, now) is Err,
        event.attendees >= event.maximum_capacity && !event.is_cancelled && !event.is_confirmed
            ==> spec_buy_ticket(event, now) == Err::<EventView, CustomError>(
            CustomError::EventFull,
        ),
        event.inv() ==> (spec_buy_ticket(event, now) matches Ok(after) ==> after.inv()),
{
}

/// Deadline enforcement: from the deadline on no ticket is sold. The sale
/// fails, with `EventClosed` where no earlier rule forbids it.
pub proof fn law_deadline_enforced(event: EventView, now: int)
    requires
        now >= event.deadline,
    ensures
        spec_buy_ticket(event, now) is Err,
        spec_sale_refusal(event) is None ==> spec_buy_ticket(event, now) == Err::<
            EventView,
            CustomError,
        >(CustomError::EventClosed),
{
}

/// Collateral round trip: where an organizer is verified with `amount` and
/// then withdraws, the withdrawal succeeds and leaves the record unverified and
/// without collateral, otherwise as it was; the deposit can be paid back in
/// full, and once the host has performed both transfers every address holds
/// what it held before.
pub proof fn law_collateral_round_trip(
    organizer: OrganizerView,
    amount: nat,
    rent_minimum: nat,
    authority: Seq<u8>,
    vault: Seq<u8>,
    bump: u8,
    balances: Balances,
    address: Seq<u8>,
)
    requires
        spec_verify_organizer(organizer, amount, rent_minimum) is Ok,
        can_transfer(balances, spec_deposit(authority, vault, amount)),
    ensures
        spec_verify_organizer(organizer, amount, rent_minimum)->Ok_0.collateral_amount == amount,
        spec_unverify_organizer(spec_verify_organizer(organizer, amount, rent_minimum)->Ok_0)
            == Ok::<OrganizerView, CustomError>(
            OrganizerView { is_verified: false, collateral_amount: 0, ..organizer },
        ),
        organizer.inv() ==> spec_unverify_organizer(
            spec_verify_organizer(organizer, amount, rent_minimum)->Ok_0,
        ) == Ok::<OrganizerView, CustomError>(organizer),
        can_transfer(
            apply_transfer(balances, spec_deposit(authority, vault, amount)),
            spec_refund(authority, vault, amount, bump),
        ),
        balance_of(
            apply_transfer(
                apply_transfer(balances, spec_deposit(authority, vault, amount)),
                spec_refund(authority, vault, amount, bump),
            ),
            address,
        ) == balance_of(balances, address),
{
}

/// An address is its 32 bytes: two addresses are equal exactly if their bytes
/// are.
pub proof fn law_addresses_are_their_bytes(a: Address, b: Address)
    ensures
        a@.len() == 32,
        (a@ == b@) <==> (a == b),
{
    if a@ == b@ {
        assert(a.bytes =~= b.bytes);
    }
}

} // verus!
