use unite::{
    check_collateral_offer, unverify_organizer, verify_organizer, Address, CustomError,
    OrganizerAccount, Transfer, UnverifyOrganizer, VerifyOrganizer, MIN_COLLATERAL,
};

const RENT_MINIMUM: u64 = 890_880;

fn authority() -> Address {
    Address::new([0x21u8; 32])
}

fn vault() -> Address {
    Address::new([0x22u8; 32])
}

fn registered() -> OrganizerAccount {
    OrganizerAccount {
        authority: authority(),
        event_count: 3,
        is_verified: false,
        collateral_amount: 0,
    }
}

fn verifying(organizer: OrganizerAccount) -> VerifyOrganizer {
    VerifyOrganizer { organizer, authority: authority(), collateral_vault: vault() }
}

fn unverifying(organizer: OrganizerAccount) -> UnverifyOrganizer {
    UnverifyOrganizer {
        organizer,
        authority: authority(),
        collateral_vault: vault(),
        collateral_vault_bump: 253,
    }
}

#[test]
fn the_collateral_floor_is_one_thousand_million() {
    assert_eq!(MIN_COLLATERAL, 1_000_000_000);
}

#[test]
fn verification_below_the_floor_is_refused() {
    let mut ctx = verifying(registered());
    let result = verify_organizer(&mut ctx, 500_000_000, RENT_MINIMUM);
    assert_eq!(result, Err(CustomError::InsufficientCollateral));
    assert!(!ctx.organizer.is_verified);
    assert_eq!(ctx.organizer, registered());
}

#[test]
fn verification_one_below_the_floor_is_refused_and_at_the_floor_accepted() {
    let mut ctx = verifying(registered());
    assert_eq!(
        verify_organizer(&mut ctx, MIN_COLLATERAL - 1, RENT_MINIMUM),
        Err(CustomError::InsufficientCollateral)
    );
    let result = verify_organizer(&mut ctx, MIN_COLLATERAL, RENT_MINIMUM);
    assert_eq!(
        result,
        Ok(Transfer {
            from: authority(),
            to: vault(),
            lamports: MIN_COLLATERAL,
            signer_seeds: vec![],
        })
    );
    assert!(ctx.organizer.is_verified);
    assert_eq!(ctx.organizer.collateral_amount, MIN_COLLATERAL);
    assert_eq!(ctx.organizer.event_count, 3);
    assert_eq!(ctx.organizer.authority, authority());
}

#[test]
fn verification_below_the_vaults_own_minimum_is_refused() {
    let mut ctx = verifying(registered());
    let result = verify_organizer(&mut ctx, 2_000_000_000, 2_000_000_001);
    assert_eq!(result, Err(CustomError::InsufficientCollateral));
    assert_eq!(ctx.organizer, registered());
    assert!(verify_organizer(&mut ctx, 2_000_000_000, 2_000_000_000).is_ok());
}

#[test]
fn a_verified_organizer_cannot_verify_again() {
    let mut ctx = verifying(registered());
    assert!(verify_organizer(&mut ctx, 3_000_000_000, RENT_MINIMUM).is_ok());
    let before = ctx.organizer;
    let again = verify_organizer(&mut ctx, 4_000_000_000, RENT_MINIMUM);
    assert_eq!(again, Err(CustomError::AlreadyVerified));
    assert_eq!(ctx.organizer, before);
    // the earlier rule wins where two are broken
    assert_eq!(verify_organizer(&mut ctx, 1, RENT_MINIMUM), Err(CustomError::AlreadyVerified));
}

#[test]
fn the_offer_check_needs_no_rent() {
    assert_eq!(check_collateral_offer(&registered(), MIN_COLLATERAL), Ok(()));
    assert_eq!(
        check_collateral_offer(&registered(), MIN_COLLATERAL - 1),
        Err(CustomError::InsufficientCollateral)
    );
    let verified = OrganizerAccount {
        is_verified: true,
        collateral_amount: MIN_COLLATERAL,
        ..registered()
    };
    assert_eq!(check_collateral_offer(&verified, u64::MAX), Err(CustomError::AlreadyVerified));
}

#[test]
fn withdrawal_needs_a_verified_organizer() {
    let mut ctx = unverifying(registered());
    assert_eq!(unverify_organizer(&mut ctx), Err(CustomError::NotVerified));
    assert_eq!(ctx.organizer, registered());
}

#[test]
fn withdrawal_needs_collateral() {
    let broken = OrganizerAccount { is_verified: true, collateral_amount: 0, ..registered() };
    let mut ctx = unverifying(broken);
    assert_eq!(unverify_organizer(&mut ctx), Err(CustomError::NoCollateral));
    assert_eq!(ctx.organizer, broken);
}

#[test]
fn withdrawal_returns_the_whole_collateral_signed_by_the_vault() {
    let verified = OrganizerAccount {
        is_verified: true,
        collateral_amount: 1_500_000_000,
        ..registered()
    };
    let mut ctx = unverifying(verified);
    let result = unverify_organizer(&mut ctx);
    assert_eq!(
        result,
        Ok(Transfer {
            from: vault(),
            to: authority(),
            lamports: 1_500_000_000,
            signer_seeds: vec![
                b"collateral_vault".to_vec(),
                authority().bytes.to_vec(),
                vec![253u8],
            ],
        })
    );
    assert_eq!(ctx.organizer, registered());
}

#[test]
fn verification_then_withdrawal_restores_record_and_balances() {
    let mut authority_balance: u64 = 5_000_000_000;
    let mut vault_balance: u64 = 0;

    let mut ctx = verifying(registered());
    let deposit = verify_organizer(&mut ctx, 1_250_000_000, RENT_MINIMUM).expect("verified");
    assert_eq!((deposit.from, deposit.to), (authority(), vault()));
    authority_balance -= deposit.lamports;
    vault_balance += deposit.lamports;
    assert_eq!((authority_balance, vault_balance), (3_750_000_000, 1_250_000_000));
    assert_eq!(ctx.organizer.is_verified, ctx.organizer.collateral_amount > 0);

    let mut back = unverifying(ctx.organizer);
    let refund = unverify_organizer(&mut back).expect("withdrawn");
    assert_eq!((refund.from, refund.to, refund.lamports), (vault(), authority(), 1_250_000_000));
    vault_balance -= refund.lamports;
    authority_balance += refund.lamports;
    assert_eq!((authority_balance, vault_balance), (5_000_000_000, 0));
    assert_eq!(back.organizer, registered());
    assert_eq!(back.organizer.is_verified, back.organizer.collateral_amount > 0);
}

#[test]
fn the_accounts_of_a_verification_name_the_derived_vault() {
    let program = Address::new([7u8; 32]);
    let ctx = VerifyOrganizer::new(&program, registered(), authority()).expect("derived");
    let back = UnverifyOrganizer::new(&program, registered(), authority()).expect("derived");
    let (vault, bump) =
        unite::pda::collateral_vault_address(&program, &authority()).expect("derived");
    assert_eq!(ctx.collateral_vault, vault);
    assert_eq!(ctx.organizer, registered());
    assert_eq!(ctx.authority, authority());
    assert_eq!(back.collateral_vault, vault);
    assert_eq!(back.collateral_vault_bump, bump);
    assert_ne!(vault, authority());
}
