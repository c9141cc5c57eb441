use unite::{initialize_organizer, Address, InitializeOrganizer, OrganizerAccount};

fn authority() -> Address {
    Address::new([0x11u8; 32])
}

#[test]
fn registration_fills_a_blank_record() {
    let mut ctx = InitializeOrganizer::new(authority());
    assert_eq!(ctx.organizer, OrganizerAccount::default());
    assert_eq!(initialize_organizer(&mut ctx), Ok(()));
    assert_eq!(
        ctx.organizer,
        OrganizerAccount {
            authority: authority(),
            event_count: 0,
            is_verified: false,
            collateral_amount: 0,
        }
    );
    assert_eq!(ctx.authority, authority());
}

#[test]
fn registration_overwrites_whatever_the_record_held() {
    let mut ctx = InitializeOrganizer {
        organizer: OrganizerAccount {
            authority: Address::new([0xEEu8; 32]),
            event_count: 9,
            is_verified: true,
            collateral_amount: 77,
        },
        authority: authority(),
    };
    assert_eq!(initialize_organizer(&mut ctx), Ok(()));
    assert_eq!(ctx.organizer.authority, authority());
    assert_eq!(ctx.organizer.event_count, 0);
    assert!(!ctx.organizer.is_verified);
    assert_eq!(ctx.organizer.collateral_amount, 0);
}

#[test]
fn the_blank_record_is_all_zero() {
    let blank = OrganizerAccount::default();
    assert_eq!(blank.authority.bytes, [0u8; 32]);
    assert_eq!(blank.event_count, 0);
    assert!(!blank.is_verified);
    assert_eq!(blank.collateral_amount, 0);
    assert_eq!(Address::default().bytes, [0u8; 32]);
}

#[test]
fn an_organizer_record_takes_forty_five_bytes() {
    assert_eq!(OrganizerAccount::MAX_SIZE, 45);
}

#[test]
fn addresses_compare_by_their_bytes() {
    let a = Address::new([3u8; 32]);
    let mut other = [3u8; 32];
    assert!(a.same(&Address::new(other)));
    assert_eq!(a, Address::new(other));
    other[31] = 4;
    assert!(!a.same(&Address::new(other)));
    assert_ne!(a, Address::new(other));
    assert_eq!(a.to_vec(), vec![3u8; 32]);
}
