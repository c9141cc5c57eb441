use unite::{
    create_event, Address, CreateEvent, EventAccount, HandlerError, OrganizerAccount,
};

fn authority() -> Address {
    Address::new([0x31u8; 32])
}

fn organizer(event_count: u32) -> OrganizerAccount {
    OrganizerAccount {
        authority: authority(),
        event_count,
        is_verified: false,
        collateral_amount: 0,
    }
}

fn accounts(event_count: u32) -> CreateEvent {
    CreateEvent {
        organizer: organizer(event_count),
        event: EventAccount::default(),
        authority: authority(),
        event_bump: 250,
    }
}

fn text(len: usize) -> String {
    "x".repeat(len)
}

#[test]
fn a_new_event_holds_its_terms_and_no_attendees() {
    let mut ctx = accounts(0);
    let result = create_event(
        &mut ctx,
        "Talk".to_string(),
        "desc".to_string(),
        1_700_003_600,
        100,
        5,
        2,
        "Lisbon".to_string(),
        "Rua Augusta 1".to_string(),
        "https://example.org/talk.png".to_string(),
    );
    assert_eq!(result, Ok(()));
    assert_eq!(
        ctx.event,
        EventAccount {
            organizer: authority(),
            title: "Talk".to_string(),
            description: "desc".to_string(),
            deadline: 1_700_003_600,
            ticket_price: 100,
            quorum: 5,
            attendees: 0,
            maximum_capacity: 2,
            is_cancelled: false,
            is_confirmed: false,
            bump: 250,
            city: "Lisbon".to_string(),
            address: "Rua Augusta 1".to_string(),
            image_url: "https://example.org/talk.png".to_string(),
        }
    );
    assert_eq!(ctx.organizer, organizer(1));
}

#[test]
fn each_creation_counts_one_event() {
    let mut org = organizer(0);
    for n in 0..5u32 {
        let mut ctx = CreateEvent {
            organizer: org,
            event: EventAccount::default(),
            authority: authority(),
            event_bump: 255,
        };
        assert_eq!(
            create_event(
                &mut ctx,
                text(1),
                text(1),
                0,
                0,
                0,
                0,
                String::new(),
                String::new(),
                String::new(),
            ),
            Ok(())
        );
        assert_eq!(ctx.organizer.event_count, n + 1);
        org = ctx.organizer;
    }
    assert_eq!(org.event_count, 5);
}

#[test]
fn terms_are_taken_as_they_are() {
    // a deadline in the past, a quorum above the capacity, a price of zero
    let mut ctx = accounts(7);
    let result = create_event(
        &mut ctx,
        String::new(),
        String::new(),
        -5,
        0,
        10,
        1,
        String::new(),
        String::new(),
        String::new(),
    );
    assert_eq!(result, Ok(()));
    assert_eq!(ctx.event.deadline, -5);
    assert_eq!(ctx.event.ticket_price, 0);
    assert_eq!(ctx.event.quorum, 10);
    assert_eq!(ctx.event.maximum_capacity, 1);
    assert_eq!(ctx.organizer.event_count, 8);
}

#[test]
fn texts_of_exactly_the_reserved_length_fit() {
    let mut ctx = accounts(0);
    let result =
        create_event(&mut ctx, text(100), text(256), 1, 1, 1, 1, text(50), text(100), text(150));
    assert_eq!(result, Ok(()));
    assert_eq!(ctx.event.title.len(), 100);
    assert_eq!(ctx.event.image_url.len(), 150);
}

#[test]
fn a_text_one_byte_too_long_is_refused_and_nothing_changes() {
    let longer: [(usize, usize, usize, usize, usize); 5] = [
        (101, 256, 50, 100, 150),
        (100, 257, 50, 100, 150),
        (100, 256, 51, 100, 150),
        (100, 256, 50, 101, 150),
        (100, 256, 50, 100, 151),
    ];
    for (t, d, c, a, i) in longer {
        let mut ctx = accounts(4);
        let result =
            create_event(&mut ctx, text(t), text(d), 1, 1, 1, 1, text(c), text(a), text(i));
        assert_eq!(result, Err(HandlerError::TextTooLong));
        assert_eq!(ctx, accounts(4));
    }
}

#[test]
fn text_length_is_counted_in_bytes_not_characters() {
    // fifty characters of two bytes each: one hundred bytes
    let mut ctx = accounts(0);
    let title = "é".repeat(50);
    assert_eq!(title.len(), 100);
    assert_eq!(
        create_event(
            &mut ctx,
            title,
            String::new(),
            0,
            0,
            0,
            0,
            String::new(),
            String::new(),
            String::new(),
        ),
        Ok(())
    );
    // fifty-one of them: one hundred and two bytes
    let mut ctx = accounts(0);
    assert_eq!(
        create_event(
            &mut ctx,
            "é".repeat(51),
            String::new(),
            0,
            0,
            0,
            0,
            String::new(),
            String::new(),
            String::new(),
        ),
        Err(HandlerError::TextTooLong)
    );
}

#[test]
fn an_event_record_takes_at_most_seven_hundred_and_thirty_nine_bytes() {
    assert_eq!(
        EventAccount::MAX_SIZE,
        32 + 4 + 100 + 4 + 256 + 8 + 8 + 4 + 4 + 4 + 1 + 1 + 1 + 4 + 50 + 4 + 100 + 4 + 150
    );
    assert_eq!(EventAccount::MAX_SIZE, 739);
}

#[test]
fn the_accounts_of_a_creation_name_the_event_by_the_present_count() {
    let program = Address::new([7u8; 32]);
    let (ctx, key) = CreateEvent::new(&program, organizer(2), authority()).expect("derived");
    let (expected, bump) = unite::pda::event_address(&program, &authority(), 2).expect("derived");
    assert_eq!(key, expected);
    assert_eq!(ctx.event_bump, bump);
    assert_eq!(ctx.event, EventAccount::default());
    assert_eq!(ctx.organizer, organizer(2));
    let (_, next) = CreateEvent::new(&program, organizer(3), authority()).expect("derived");
    assert_ne!(key, next);
}
