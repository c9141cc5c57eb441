use crate::address::Address;
use crate::error::CustomError;
use crate::organizer::{OrganizerAccount, OrganizerView};
use crate::pda::{collateral_vault_address, program_address};
use crate::seeds::{
    collateral_vault_seeds, signer_seeds, spec_collateral_vault_seeds, spec_signer_seeds,
};
use crate::transfer::{reverse_of, Transfer, TransferView};
use vstd::prelude::*;

verus! {

/// The least collateral that verifies an organizer.
pub const MIN_COLLATERAL: u64 = 1_000_000_000;

/// The accounts of a verification.
#[derive(Clone, Copy, Debug, PartialEq, Eq)]
pub struct VerifyOrganizer {
    /// The organizer's record.
    pub organizer: OrganizerAccount,
    /// The signer, who pays the collateral.
    pub authority: Address,
    /// The vault that holds the collateral.
    pub collateral_vault: Address,
}

/// The accounts of a withdrawal of collateral.
#[derive(Clone, Copy, Debug, PartialEq, Eq)]
pub struct UnverifyOrganizer {
    /// The organizer's record.
    pub organizer: OrganizerAccount,
    /// The signer, who takes the collateral back.
    pub authority: Address,
    /// The vault that holds the collateral.
    pub collateral_vault: Address,
    /// The bump with which the vault's address derives from its labels.
    pub collateral_vault_bump: u8,
}

impl VerifyOrganizer {
    /// The accounts with which `authority` verifies `organizer` under the
    /// program `program_id`: the vault is the one that the host derives for
    /// the authority. `None` where the host derives no address.
    pub fn new(program_id: &Address, organizer: OrganizerAccount, authority: Address) -> (found:
        Option<VerifyOrganizer>)
        ensures
            match program_address(spec_collateral_vault_seeds(authority@), program_id@) {
                Some((vault, bump)) => {
                    &&& found is Some
                    &&& found->0.organizer == organizer
                    &&& found->0.authority == authority
                    &&& found->0.collateral_vault@ == vault
                },
                None => found is None,
            },
    {
        match collateral_vault_address(program_id, &authority) {
            Some((vault, _)) => Some(
                VerifyOrganizer { organizer, authority, collateral_vault: vault },
            ),
            None => None,
        }
    }
}

impl UnverifyOrganizer {
    /// The accounts with which `authority` withdraws the collateral of
    /// `organizer` under the program `program_id`: the vault and its bump are
    /// those that the host derives for the authority. `None` where the host
    /// derives no address.
    pub fn new(program_id: &Address, organizer: OrganizerAccount, authority: Address) -> (found:
        Option<UnverifyOrganizer>)
        ensures
            match program_address(spec_collateral_vault_seeds(authority@), program_id@) {
                Some((vault, bump)) => {
                    &&& found is Some
                    &&& found->0.organizer == organizer
                    &&& found->0.authority == authority
                    &&& found->0.collateral_vault@ == vault
                    &&& found->0.collateral_vault_bump == bump
                },
                None => found is None,
            },
    {
        match collateral_vault_address(program_id, &authority) {
            Some((vault, bump)) => Some(
                UnverifyOrganizer {
                    organizer,
                    authority,
                    collateral_vault: vault,
                    collateral_vault_bump: bump,
                },
            ),
            None => None,
        }
    }
}

/// The transfer that posts collateral: `amount` from the authority into the
/// vault, signed by the authority itself.
pub open spec fn spec_deposit(authority: Seq<u8>, vault: Seq<u8>, amount: nat) -> TransferView {
    TransferView {
        from: authority,
        to: vault,
        lamports: amount,
        signer_seeds: Seq::<Seq<u8>>::empty(),
    }
}

/// The transfer that returns collateral: the deposit the other way round,
/// authorised by the vault's label tuple and bump.
pub open spec fn spec_refund(
    authority: Seq<u8>,
    vault: Seq<u8>,
    amount: nat,
    bump: u8,
) -> TransferView {
    reverse_of(
        spec_deposit(authority, vault, amount),
        spec_signer_seeds(spec_collateral_vault_seeds(authority), bump),
    )
}

/// Why an offer of `amount` as collateral is refused before the vault's own
/// minimum is known, if it is.
pub open spec fn spec_collateral_offer_refusal(organizer: OrganizerView, amount: nat) -> Option<
    CustomError,
> {
    if organizer.is_verified {
        Some(CustomError::AlreadyVerified)
    } else if amount < MIN_COLLATERAL {
        Some(CustomError::InsufficientCollateral)
    } else {
        None
    }
}

/// The organizer after verification with `amount`, where `rent_minimum` is the
/// least balance with which the vault can exist, or the rule that forbids it.
pub open spec fn spec_verify_organizer(
    organizer: OrganizerView,
    amount: nat,
    rent_minimum: nat,
) -> Result<OrganizerView, CustomError> {
    match spec_collateral_offer_refusal(organizer, amount) {
        Some(e) => Err(e),
        None => if amount < rent_minimum {
            Err(CustomError::InsufficientCollateral)
        } else {
            Ok(OrganizerView { is_verified: true, collateral_amount: amount, ..organizer })
        },
    }
}

/// The organizer after its collateral was withdrawn, or the rule that forbids
/// the withdrawal.
pub open spec fn spec_unverify_organizer(organizer: OrganizerView) -> Result<
    OrganizerView,
    CustomError,
> {
    if !organizer.is_verified {
        Err(CustomError::NotVerified)
    } else if organizer.collateral_amount == 0 {
        Err(CustomError::NoCollateral)
    } else {
        Ok(OrganizerView { is_verified: false, collateral_amount: 0, ..organizer })
    }
}

/// The checks on an offer of collateral that need nothing from the host: the
/// organizer must not be verified already, and the amount must reach
/// `MIN_COLLATERAL`.
pub fn check_collateral_offer(organizer: &OrganizerAccount, amount: u64) -> (result: Result<
    (),
    CustomError,
>)
    ensures
        match spec_collateral_offer_refusal(organizer@, amount as nat) {
            Some(e) => result == Err::<(), CustomError>(e),
            None => result is Ok,
        },
{
    if organizer.is_verified {
        return Err(CustomError::AlreadyVerified);
    }
    if amount < MIN_COLLATERAL {
        return Err(CustomError::InsufficientCollateral);
    }
    Ok(())
}

/// Verifies the organizer with `amount` of collateral. `rent_minimum` is the
/// least balance with which the host lets the vault exist.
///
/// On success the record is verified and remembers the amount, and the result
/// is the transfer of `amount` from the authority into the vault, signed by the
/// authority itself. On failure nothing changes.
pub fn verify_organizer(ctx: &mut VerifyOrganizer, amount: u64, rent_minimum: u64) -> (result:
    Result<Transfer, CustomError>)
    ensures
        match spec_verify_organizer(old(ctx).organizer@, amount as nat, rent_minimum as nat) {
            Ok(organizer) => {
                &&& result is Ok
                &&& result->Ok_0@ == spec_deposit(
                    old(ctx).authority@,
                    old(ctx).collateral_vault@,
                    amount as nat,
                )
                &&& final(ctx).organizer@ == organizer
                &&& final(ctx).organizer.inv()
            },
            Err(e) => result == Err::<Transfer, CustomError>(e) && final(ctx).organizer == old(
                ctx,
            ).organizer,
        },
        old(ctx).organizer.inv() ==> final(ctx).organizer.inv(),
        final(ctx).authority == old(ctx).authority,
        final(ctx).collateral_vault == old(ctx).collateral_vault,
{
    match check_collateral_offer(&ctx.organizer, amount) {
        Err(e) => {
            return Err(e);
        },
        Ok(()) => {},
    }
    if amount < rent_minimum {
        return Err(CustomError::InsufficientCollateral);
    }
    ctx.organizer.is_verified = true;
    ctx.organizer.collateral_amount = amount;
    let transfer = Transfer {
        from: ctx.authority,
        to: ctx.collateral_vault,
        lamports: amount,
        signer_seeds: Vec::new(),
    };
    assert(transfer.signer_seeds.deep_view() =~= Seq::<Seq<u8>>::empty());
    Ok(transfer)
}

/// Withdraws the organizer's whole collateral.
///
/// On success the record is unverified with no collateral, and the result is
/// the transfer of the former collateral from the vault back to the authority,
/// authorised by the vault's label tuple and bump. On failure nothing changes.
pub fn unverify_organizer(ctx: &mut UnverifyOrganizer) -> (result: Result<Transfer, CustomError>)
    ensures
        match spec_unverify_organizer(old(ctx).organizer@) {
            Ok(organizer) => {
                &&& result is Ok
                &&& result->Ok_0@ == spec_refund(
                    old(ctx).authority@,
                    old(ctx).collateral_vault@,
                    old(ctx).organizer@.collateral_amount,
                    old(ctx).collateral_vault_bump,
                )
                &&& final(ctx).organizer@ == organizer
                &&& final(ctx).organizer.inv()
            },
            Err(e) => result == Err::<Transfer, CustomError>(e) && final(ctx).organizer == old(
                ctx,
            ).organizer,
        },
        old(ctx).organizer.inv() ==> final(ctx).organizer.inv(),
        final(ctx).authority == old(ctx).authority,
        final(ctx).collateral_vault == old(ctx).collateral_vault,
        final(ctx).collateral_vault_bump == old(ctx).collateral_vault_bump,
{
    if !ctx.organizer.is_verified {
        return Err(CustomError::NotVerified);
    }
    if ctx.organizer.collateral_amount == 0 {
        return Err(CustomError::NoCollateral);
    }
    let amount: u64 = ctx.organizer.collateral_amount;
    let seeds = signer_seeds(collateral_vault_seeds(&ctx.authority), ctx.collateral_vault_bump);
    let transfer = Transfer {
        from: ctx.collateral_vault,
        to: ctx.authority,
        lamports: amount,
        signer_seeds: seeds,
    };
    ctx.organizer.is_verified = false;
    ctx.organizer.collateral_amount = 0;
    Ok(transfer)
}

} // verus!
