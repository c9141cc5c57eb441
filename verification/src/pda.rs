use crate::address::Address;
use crate::seeds::{
    collateral_vault_seeds, event_seeds, event_vault_seeds, organizer_seeds,
    spec_collateral_vault_seeds, spec_event_seeds, spec_event_vault_seeds, spec_organizer_seeds,
    spec_ticket_seeds, ticket_seeds,
};
use anchor_lang::prelude::Pubkey;
use vstd::prelude::*;

verus! {

/// What `Pubkey::try_find_program_address` gives for a label tuple under a
/// program: the derived address and its bump, or `None` where it derives
/// none. The derivation is a fixed function of the labels and the program's
/// address; nothing else is claimed of it, and in particular not that two
/// label tuples never derive the same address.
pub uninterp spec fn program_address(seeds: Seq<Seq<u8>>, program_id: Seq<u8>) -> Option<
    (Seq<u8>, u8),
>;

/// A derived address and its bump, as bytes.
pub open spec fn derived_view(found: Option<(Address, u8)>) -> Option<(Seq<u8>, u8)> {
    match found {
        Some((address, bump)) => Some((address@, bump)),
        None => None,
    }
}

/// Calls `Pubkey::try_find_program_address` on the labels and the program's
/// address. The contract is not proved. It claims only that the outcome is the
/// one that this derivation gives for these bytes whenever it is asked.
#[verifier::external_body]
fn find_program_address(seeds: &Vec<Vec<u8>>, program_id: &Address) -> (found: Option<
    (Address, u8),
>)
    ensures
        derived_view(found) == program_address(seeds.deep_view(), program_id@),
{
    let labels: Vec<&[u8]> = seeds.iter().map(|seed| seed.as_slice()).collect();
    match Pubkey::try_find_program_address(&labels, &Pubkey::new_from_array(program_id.bytes)) {
        Some((key, bump)) => Some((Address { bytes: key.to_bytes() }, bump)),
        None => None,
    }
}

/// Where the organizer record of `authority` lives.
pub fn organizer_address(program_id: &Address, authority: &Address) -> (found: Option<
    (Address, u8),
>)
    ensures
        derived_view(found) == program_address(spec_organizer_seeds(authority@), program_id@),
{
    let seeds = organizer_seeds(authority);
    find_program_address(&seeds, program_id)
}

/// Where the event lives that `authority` creates while its event count is
/// `event_count`.
pub fn event_address(program_id: &Address, authority: &Address, event_count: u32) -> (found:
    Option<(Address, u8)>)
    ensures
        derived_view(found) == program_address(
            spec_event_seeds(authority@, event_count),
            program_id@,
        ),
{
    let seeds = event_seeds(authority, event_count);
    find_program_address(&seeds, program_id)
}

/// Where the ticket lives that `buyer` buys for `event` under `timestamp`.
pub fn ticket_address(
    program_id: &Address,
    event: &Address,
    buyer: &Address,
    timestamp: i64,
) -> (found: Option<(Address, u8)>)
    ensures
        derived_view(found) == program_address(
            spec_ticket_seeds(event@, buyer@, timestamp),
            program_id@,
        ),
{
    let seeds = ticket_seeds(event, buyer, timestamp);
    find_program_address(&seeds, program_id)
}

/// Where the collateral of `authority` is held.
pub fn collateral_vault_address(program_id: &Address, authority: &Address) -> (found: Option<
    (Address, u8),
>)
    ensures
        derived_view(found) == program_address(
            spec_collateral_vault_seeds(authority@),
            program_id@,
        ),
{
    let seeds = collateral_vault_seeds(authority);
    find_program_address(&seeds, program_id)
}

/// Where the payments for `event` are held.
pub fn event_vault_address(program_id: &Address, event: &Address) -> (found: Option<
    (Address, u8),
>)
    ensures
        derived_view(found) == program_address(spec_event_vault_seeds(event@), program_id@),
{
    let seeds = event_vault_seeds(event);
    find_program_address(&seeds, program_id)
}

} // verus!
