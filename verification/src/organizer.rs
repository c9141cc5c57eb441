use crate::address::Address;
use crate::error::HandlerError;
use vstd::prelude::*;

verus! {

/// The record of one organizer. There is one per authority.
#[derive(Clone, Copy, Debug, PartialEq, Eq)]
pub struct OrganizerAccount {
    /// Who controls the record. Fixed at registration.
    pub authority: Address,
    /// How many events the organizer has created; also the index that names
    /// the next one.
    pub event_count: u32,
    /// Whether collateral is posted.
    pub is_verified: bool,
    /// The amount held in the organizer's collateral vault.
    pub collateral_amount: u64,
}

/// An organizer record, as mathematics.
pub struct OrganizerView {
    pub authority: Seq<u8>,
    pub event_count: nat,
    pub is_verified: bool,
    pub collateral_amount: nat,
}

impl View for OrganizerAccount {
    type V = OrganizerView;

    open spec fn view(&self) -> OrganizerView {
        OrganizerView {
            authority: self.authority@,
            event_count: self.event_count as nat,
            is_verified: self.is_verified,
            collateral_amount: self.collateral_amount as nat,
        }
    }
}

impl OrganizerView {
    /// An organizer is verified exactly while it has collateral in escrow.
    pub open spec fn inv(self) -> bool {
        self.collateral_amount > 0 <==> self.is_verified
    }
}

impl OrganizerAccount {
    /// Bytes of storage that the record's fields take.
    pub const MAX_SIZE: usize = 32 + 4 + 1 + 8;

    /// The record's invariant.
    pub open spec fn inv(&self) -> bool {
        self@.inv()
    }
}

impl Default for OrganizerAccount {
    /// The record as the host hands it out before registration: all zero.
    fn default() -> (blank: OrganizerAccount)
        ensures
            blank@ == spec_initialize_organizer(Seq::new(32, |i: int| 0u8)),
    {
        OrganizerAccount {
            authority: Address::default(),
            event_count: 0,
            is_verified: false,
            collateral_amount: 0,
        }
    }
}

/// The record of an authority that has just registered.
pub open spec fn spec_initialize_organizer(authority: Seq<u8>) -> OrganizerView {
    OrganizerView { authority, event_count: 0, is_verified: false, collateral_amount: 0 }
}

/// The accounts of a registration.
#[derive(Clone, Copy, Debug, PartialEq, Eq)]
pub struct InitializeOrganizer {
    /// The record being created.
    pub organizer: OrganizerAccount,
    /// The signer who registers, and who pays for the record.
    pub authority: Address,
}

impl InitializeOrganizer {
    /// The accounts with which `authority` registers: a blank record and the
    /// authority itself.
    pub fn new(authority: Address) -> (ctx: InitializeOrganizer)
        ensures
            ctx.authority == authority,
            ctx.organizer@ == spec_initialize_organizer(Seq::new(32, |i: int| 0u8)),
    {
        InitializeOrganizer { organizer: OrganizerAccount::default(), authority }
    }
}

/// Registers `ctx.authority`: fills the fresh record with the authority, no
/// events, no verification and no collateral. It never fails.
pub fn initialize_organizer(ctx: &mut InitializeOrganizer) -> (result: Result<(), HandlerError>)
    ensures
        result is Ok,
        final(ctx).organizer@ == spec_initialize_organizer(old(ctx).authority@),
        final(ctx).organizer.inv(),
        final(ctx).authority == old(ctx).authority,
{
    ctx.organizer.authority = ctx.authority;
    ctx.organizer.event_count = 0;
    ctx.organizer.is_verified = false;
    ctx.organizer.collateral_amount = 0;
    Ok(())
}

} // verus!
