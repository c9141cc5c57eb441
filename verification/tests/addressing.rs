use anchor_lang::prelude::Pubkey;
use unite::address::Address;
use unite::pda::{
    collateral_vault_address, event_address, event_vault_address, organizer_address,
    ticket_address,
};
use unite::seeds::{
    collateral_vault_seeds, event_seeds, event_vault_seeds, organizer_seeds, signer_seeds,
    ticket_seeds,
};

fn program() -> Address {
    Address::new([7u8; 32])
}

fn actor(tag: u8) -> Address {
    let mut bytes = [0u8; 32];
    bytes[0] = tag;
    bytes[31] = 0xA5;
    Address::new(bytes)
}

#[test]
fn organizer_seeds_are_the_label_and_the_authority() {
    let a = actor(1);
    let seeds = organizer_seeds(&a);
    assert_eq!(seeds, vec![b"organizer".to_vec(), a.bytes.to_vec()]);
}

#[test]
fn event_seeds_carry_the_count_least_significant_byte_first() {
    let a = actor(1);
    let seeds = event_seeds(&a, 0x0102_0304);
    assert_eq!(seeds, vec![b"event".to_vec(), a.bytes.to_vec(), vec![4u8, 3, 2, 1]]);
}

#[test]
fn ticket_seeds_carry_a_negative_timestamp_in_twos_complement() {
    let e = actor(2);
    let b = actor(3);
    let seeds = ticket_seeds(&e, &b, -2);
    assert_eq!(
        seeds,
        vec![
            b"ticket".to_vec(),
            e.bytes.to_vec(),
            b.bytes.to_vec(),
            vec![0xFEu8, 0xFF, 0xFF, 0xFF, 0xFF, 0xFF, 0xFF, 0xFF],
        ]
    );
    assert_eq!(ticket_seeds(&e, &b, 1)[3], 1i64.to_le_bytes().to_vec());
}

#[test]
fn vault_seeds_use_their_own_labels() {
    let a = actor(4);
    assert_eq!(collateral_vault_seeds(&a), vec![b"collateral_vault".to_vec(), a.bytes.to_vec()]);
    assert_eq!(event_vault_seeds(&a), vec![b"event_vault".to_vec(), a.bytes.to_vec()]);
}

#[test]
fn signer_seeds_append_the_bump() {
    let a = actor(4);
    let signed = signer_seeds(collateral_vault_seeds(&a), 254);
    assert_eq!(signed, vec![b"collateral_vault".to_vec(), a.bytes.to_vec(), vec![254u8]]);
}

#[test]
fn organizer_address_is_the_hosts_derivation() {
    let a = actor(1);
    let program_key = Pubkey::new_from_array(program().bytes);
    let (key, bump) = Pubkey::find_program_address(&[b"organizer", &a.bytes], &program_key);
    let found = organizer_address(&program(), &a).expect("an address is derived");
    assert_eq!(found.0.bytes, key.to_bytes());
    assert_eq!(found.1, bump);
    assert_ne!(found.0, program());
    assert_ne!(found.0, a);
}

#[test]
fn event_addresses_differ_from_one_count_to_the_next() {
    let a = actor(1);
    let program_key = Pubkey::new_from_array(program().bytes);
    let first = event_address(&program(), &a, 0).expect("an address is derived");
    let second = event_address(&program(), &a, 1).expect("an address is derived");
    assert_ne!(first.0, second.0);
    let (key, bump) =
        Pubkey::find_program_address(&[b"event", &a.bytes, &1u32.to_le_bytes()], &program_key);
    assert_eq!(second.0.bytes, key.to_bytes());
    assert_eq!(second.1, bump);
}

#[test]
fn ticket_and_vault_addresses_are_the_hosts_derivations() {
    let e = actor(2);
    let b = actor(3);
    let program_key = Pubkey::new_from_array(program().bytes);
    let (ticket_key, ticket_bump) = Pubkey::find_program_address(
        &[b"ticket", &e.bytes, &b.bytes, &77i64.to_le_bytes()],
        &program_key,
    );
    let ticket = ticket_address(&program(), &e, &b, 77).expect("an address is derived");
    assert_eq!((ticket.0.bytes, ticket.1), (ticket_key.to_bytes(), ticket_bump));

    let (vault_key, vault_bump) =
        Pubkey::find_program_address(&[b"collateral_vault", &b.bytes], &program_key);
    let vault = collateral_vault_address(&program(), &b).expect("an address is derived");
    assert_eq!((vault.0.bytes, vault.1), (vault_key.to_bytes(), vault_bump));

    let (pay_key, pay_bump) =
        Pubkey::find_program_address(&[b"event_vault", &e.bytes], &program_key);
    let pay = event_vault_address(&program(), &e).expect("an address is derived");
    assert_eq!((pay.0.bytes, pay.1), (pay_key.to_bytes(), pay_bump));
}

#[test]
fn the_same_labels_always_derive_the_same_address() {
    let a = actor(9);
    assert_eq!(organizer_address(&program(), &a), organizer_address(&program(), &a));
}
