use crate::address::Address;
use vstd::bytes::{spec_u32_to_le_bytes, spec_u64_to_le_bytes, u32_to_le_bytes, u64_to_le_bytes};
use vstd::prelude::*;

verus! {

/// The label `organizer`, in ASCII.
pub open spec fn organizer_label() -> Seq<u8> {
    seq![111u8, 114u8, 103u8, 97u8, 110u8, 105u8, 122u8, 101u8, 114u8]
}

/// The label `event`, in ASCII.
pub open spec fn event_label() -> Seq<u8> {
    seq![101u8, 118u8, 101u8, 110u8, 116u8]
}

/// The label `ticket`, in ASCII.
pub open spec fn ticket_label() -> Seq<u8> {
    seq![116u8, 105u8, 99u8, 107u8, 101u8, 116u8]
}

/// The label `collateral_vault`, in ASCII.
pub open spec fn collateral_vault_label() -> Seq<u8> {
    seq![
        99u8, 111u8, 108u8, 108u8, 97u8, 116u8, 101u8, 114u8, 97u8, 108u8, 95u8, 118u8, 97u8,
        117u8, 108u8, 116u8,
    ]
}

/// The label `event_vault`, in ASCII.
pub open spec fn event_vault_label() -> Seq<u8> {
    seq![101u8, 118u8, 101u8, 110u8, 116u8, 95u8, 118u8, 97u8, 117u8, 108u8, 116u8]
}

/// The eight bytes of a timestamp, least significant first, in two's complement.
pub open spec fn timestamp_bytes(timestamp: i64) -> Seq<u8> {
    spec_u64_to_le_bytes(#[verifier::truncate] (timestamp as u64))
}

/// The label tuple that addresses the organizer record of `authority`.
pub open spec fn spec_organizer_seeds(authority: Seq<u8>) -> Seq<Seq<u8>> {
    seq![organizer_label(), authority]
}

/// The label tuple that addresses the event that `authority` created when its
/// event count stood at `event_count`.
pub open spec fn spec_event_seeds(authority: Seq<u8>, event_count: u32) -> Seq<Seq<u8>> {
    seq![event_label(), authority, spec_u32_to_le_bytes(event_count)]
}

/// The label tuple that addresses the ticket that `buyer` bought for `event`
/// under the purchase marker `timestamp`.
pub open spec fn spec_ticket_seeds(event: Seq<u8>, buyer: Seq<u8>, timestamp: i64) -> Seq<Seq<u8>> {
    seq![ticket_label(), event, buyer, timestamp_bytes(timestamp)]
}

/// The label tuple that addresses the collateral vault of `authority`.
pub open spec fn spec_collateral_vault_seeds(authority: Seq<u8>) -> Seq<Seq<u8>> {
    seq![collateral_vault_label(), authority]
}

/// The label tuple that addresses the payment vault of `event`.
pub open spec fn spec_event_vault_seeds(event: Seq<u8>) -> Seq<Seq<u8>> {
    seq![event_vault_label(), event]
}

/// A label tuple followed by its bump: what proves control of the derived address.
pub open spec fn spec_signer_seeds(seeds: Seq<Seq<u8>>, bump: u8) -> Seq<Seq<u8>> {
    seeds.push(seq![bump])
}

fn organizer_label_bytes() -> (label: Vec<u8>)
    ensures
        label@ == organizer_label(),
{
    vec![111u8, 114u8, 103u8, 97u8, 110u8, 105u8, 122u8, 101u8, 114u8]
}

fn event_label_bytes() -> (label: Vec<u8>)
    ensures
        label@ == event_label(),
{
    vec![101u8, 118u8, 101u8, 110u8, 116u8]
}

fn ticket_label_bytes() -> (label: Vec<u8>)
    ensures
        label@ == ticket_label(),
{
    vec![116u8, 105u8, 99u8, 107u8, 101u8, 116u8]
}

fn collateral_vault_label_bytes() -> (label: Vec<u8>)
    ensures
        label@ == collateral_vault_label(),
{
    vec![
        99u8, 111u8, 108u8, 108u8, 97u8, 116u8, 101u8, 114u8, 97u8, 108u8, 95u8, 118u8, 97u8,
        117u8, 108u8, 116u8,
    ]
}

fn event_vault_label_bytes() -> (label: Vec<u8>)
    ensures
        label@ == event_vault_label(),
{
    vec![101u8, 118u8, 101u8, 110u8, 116u8, 95u8, 118u8, 97u8, 117u8, 108u8, 116u8]
}

/// Builds the label tuple of an organizer record.
pub fn organizer_seeds(authority: &Address) -> (seeds: Vec<Vec<u8>>)
    ensures
        seeds.deep_view() == spec_organizer_seeds(authority@),
{
    let mut seeds: Vec<Vec<u8>> = Vec::new();
    seeds.push(organizer_label_bytes());
    seeds.push(authority.to_vec());
    assert(seeds.deep_view() =~~= spec_organizer_seeds(authority@));
    seeds
}

/// Builds the label tuple of an event record.
pub fn event_seeds(authority: &Address, event_count: u32) -> (seeds: Vec<Vec<u8>>)
    ensures
        seeds.deep_view() == spec_event_seeds(authority@, event_count),
{
    let mut seeds: Vec<Vec<u8>> = Vec::new();
    seeds.push(event_label_bytes());
    seeds.push(authority.to_vec());
    seeds.push(u32_to_le_bytes(event_count));
    assert(seeds.deep_view() =~~= spec_event_seeds(authority@, event_count));
    seeds
}

/// Builds the label tuple of a ticket record.
pub fn ticket_seeds(event: &Address, buyer: &Address, timestamp: i64) -> (seeds: Vec<Vec<u8>>)
    ensures
        seeds.deep_view() == spec_ticket_seeds(event@, buyer@, timestamp),
{
    let mut seeds: Vec<Vec<u8>> = Vec::new();
    seeds.push(ticket_label_bytes());
    seeds.push(event.to_vec());
    seeds.push(buyer.to_vec());
    seeds.push(u64_to_le_bytes(#[verifier::truncate] (timestamp as u64)));
    assert(seeds.deep_view() =~~= spec_ticket_seeds(event@, buyer@, timestamp));
    seeds
}

/// Builds the label tuple of an organizer's collateral vault.
pub fn collateral_vault_seeds(authority: &Address) -> (seeds: Vec<Vec<u8>>)
    ensures
        seeds.deep_view() == spec_collateral_vault_seeds(authority@),
{
    let mut seeds: Vec<Vec<u8>> = Vec::new();
    seeds.push(collateral_vault_label_bytes());
    seeds.push(authority.to_vec());
    assert(seeds.deep_view() =~~= spec_collateral_vault_seeds(authority@));
    seeds
}

/// Builds the label tuple of an event's payment vault.
pub fn event_vault_seeds(event: &Address) -> (seeds: Vec<Vec<u8>>)
    ensures
        seeds.deep_view() == spec_event_vault_seeds(event@),
{
    let mut seeds: Vec<Vec<u8>> = Vec::new();
    seeds.push(event_vault_label_bytes());
    seeds.push(event.to_vec());
    assert(seeds.deep_view() =~~= spec_event_vault_seeds(event@));
    seeds
}

/// Appends the bump to a label tuple.
pub fn signer_seeds(seeds: Vec<Vec<u8>>, bump: u8) -> (signed: Vec<Vec<u8>>)
    ensures
        signed.deep_view() == spec_signer_seeds(seeds.deep_view(), bump),
{
    let mut signed = seeds;
    signed.push(vec![bump]);
    assert(signed.deep_view() =~~= spec_signer_seeds(seeds.deep_view(), bump));
    signed
}

} // verus!
