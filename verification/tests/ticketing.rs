use unite::{
    buy_ticket, buy_ticket_at, check_on_sale, create_event, initialize_organizer,
    initialize_ticket_account, Address, BuyTicket, CreateEvent, CustomError, EventAccount,
    HandlerError, InitializeOrganizer, InitializeTicketAccount, TicketAccount, Transfer,
};

const T: i64 = 1_700_000_000;

fn key(tag: u8) -> Address {
    Address::new([tag; 32])
}

fn event(attendees: u32, capacity: u32) -> EventAccount {
    EventAccount {
        organizer: key(1),
        title: "Talk".to_string(),
        description: "desc".to_string(),
        deadline: T + 3600,
        ticket_price: 100,
        quorum: 5,
        attendees,
        maximum_capacity: capacity,
        is_cancelled: false,
        is_confirmed: false,
        bump: 255,
        city: String::new(),
        address: String::new(),
        image_url: String::new(),
    }
}

fn purchase(event: EventAccount, buyer: Address) -> BuyTicket {
    BuyTicket {
        event_key: key(0xE0),
        event,
        buyer,
        ticket: TicketAccount::default(),
        event_vault: key(0xEE),
    }
}

#[test]
fn a_sale_counts_the_attendee_fills_the_ticket_and_asks_for_the_price() {
    let mut ctx = purchase(event(0, 2), key(0xB1));
    let result = buy_ticket_at(&mut ctx, 1, T);
    assert_eq!(
        result,
        Ok(Transfer { from: key(0xB1), to: key(0xEE), lamports: 100, signer_seeds: vec![] })
    );
    assert_eq!(ctx.event, event(1, 2));
    assert_eq!(
        ctx.ticket,
        TicketAccount { buyer: key(0xB1), event: key(0xE0), timestamp: 1, is_refunded: false }
    );
}

#[test]
fn scenario_two_seats_three_buyers() {
    // register organizer O
    let mut registration = InitializeOrganizer::new(key(1));
    assert_eq!(initialize_organizer(&mut registration), Ok(()));

    // O creates the event E0
    let mut creation = CreateEvent {
        organizer: registration.organizer,
        event: EventAccount::default(),
        authority: key(1),
        event_bump: 255,
    };
    assert_eq!(
        create_event(
            &mut creation,
            "Talk".to_string(),
            "desc".to_string(),
            T + 3600,
            100,
            5,
            2,
            String::new(),
            String::new(),
            String::new(),
        ),
        Ok(())
    );
    assert_eq!(creation.organizer.event_count, 1);
    assert_eq!(creation.event.attendees, 0);

    let mut b1_balance: u64 = 1_000;
    let mut vault_balance: u64 = 0;

    // B1 buys
    let mut first = purchase(creation.event, key(0xB1));
    let payment = buy_ticket_at(&mut first, 1, T).expect("sold");
    assert_eq!(first.event.attendees, 1);
    assert_eq!((payment.from, payment.to), (key(0xB1), key(0xEE)));
    b1_balance -= payment.lamports;
    vault_balance += payment.lamports;
    assert_eq!(b1_balance, 900);
    assert_eq!(vault_balance, 100);

    // B2 buys
    let mut second = purchase(first.event, key(0xB2));
    let payment = buy_ticket_at(&mut second, 2, T).expect("sold");
    assert_eq!(second.event.attendees, 2);
    assert_eq!((payment.from, payment.lamports), (key(0xB2), 100));

    // B3 finds the event full
    let mut third = purchase(second.event, key(0xB3));
    let before = third.clone();
    assert_eq!(buy_ticket_at(&mut third, 3, T), Err(CustomError::EventFull));
    assert_eq!(third.event.attendees, 2);
    assert_eq!(third, before);
}

#[test]
fn a_sale_at_or_after_the_deadline_is_refused() {
    for now in [T + 3600, T + 3601, i64::MAX] {
        let mut ctx = purchase(event(0, 2), key(0xB1));
        assert_eq!(buy_ticket_at(&mut ctx, 1, now), Err(CustomError::EventClosed));
        assert_eq!(ctx, purchase(event(0, 2), key(0xB1)));
    }
    let mut ctx = purchase(event(0, 2), key(0xB1));
    assert!(buy_ticket_at(&mut ctx, 1, T + 3599).is_ok());
    assert_eq!(ctx.event.attendees, 1);
}

#[test]
fn the_rules_of_a_sale_are_checked_in_order() {
    let all_broken = EventAccount { is_cancelled: true, is_confirmed: true, ..event(2, 2) };
    let mut ctx = purchase(all_broken.clone(), key(0xB1));
    assert_eq!(buy_ticket_at(&mut ctx, 1, T + 9999), Err(CustomError::EventCancelled));
    assert_eq!(ctx.event, all_broken);

    let confirmed_full_late = EventAccount { is_confirmed: true, ..event(2, 2) };
    let mut ctx = purchase(confirmed_full_late, key(0xB1));
    assert_eq!(buy_ticket_at(&mut ctx, 1, T + 9999), Err(CustomError::EventAlreadyConfirmed));

    let mut ctx = purchase(event(2, 2), key(0xB1));
    assert_eq!(buy_ticket_at(&mut ctx, 1, T + 9999), Err(CustomError::EventFull));

    let mut ctx = purchase(event(1, 2), key(0xB1));
    assert_eq!(buy_ticket_at(&mut ctx, 1, T + 9999), Err(CustomError::EventClosed));
}

#[test]
fn an_event_without_room_sells_nothing() {
    let mut ctx = purchase(event(0, 0), key(0xB1));
    assert_eq!(buy_ticket_at(&mut ctx, 1, T), Err(CustomError::EventFull));
    // more attendees than room: still full
    let mut ctx = purchase(event(3, 2), key(0xB1));
    assert_eq!(buy_ticket_at(&mut ctx, 1, T), Err(CustomError::EventFull));
    assert_eq!(ctx.event.attendees, 3);
}

#[test]
fn the_last_seat_of_the_largest_event_can_be_sold() {
    let mut ctx = purchase(event(u32::MAX - 1, u32::MAX), key(0xB1));
    assert!(buy_ticket_at(&mut ctx, 1, T).is_ok());
    assert_eq!(ctx.event.attendees, u32::MAX);
    assert_eq!(buy_ticket_at(&mut ctx, 2, T), Err(CustomError::EventFull));
}

#[test]
fn the_same_timestamp_fills_the_same_ticket_again() {
    let mut ctx = purchase(event(0, 5), key(0xB1));
    assert!(buy_ticket_at(&mut ctx, 9, T).is_ok());
    let ticket = ctx.ticket;
    assert!(buy_ticket_at(&mut ctx, 9, T).is_ok());
    assert_eq!(ctx.ticket, ticket);
    assert_eq!(ctx.event.attendees, 2);
}

#[test]
fn the_checks_without_a_clock() {
    assert_eq!(check_on_sale(&event(0, 2)), Ok(()));
    assert_eq!(check_on_sale(&event(2, 2)), Err(CustomError::EventFull));
    assert_eq!(
        check_on_sale(&EventAccount { is_cancelled: true, ..event(0, 2) }),
        Err(CustomError::EventCancelled)
    );
    assert_eq!(
        check_on_sale(&EventAccount { is_confirmed: true, ..event(0, 2) }),
        Err(CustomError::EventAlreadyConfirmed)
    );
}

#[test]
fn a_sale_by_the_hosts_clock_refuses_before_it_reads_the_clock() {
    let mut ctx = purchase(event(2, 2), key(0xB1));
    assert_eq!(buy_ticket(&mut ctx, 1), Err(HandlerError::Custom(CustomError::EventFull)));
    let cancelled = EventAccount { is_cancelled: true, ..event(0, 2) };
    let mut ctx = purchase(cancelled.clone(), key(0xB1));
    assert_eq!(buy_ticket(&mut ctx, 1), Err(HandlerError::Custom(CustomError::EventCancelled)));
    assert_eq!(ctx.event, cancelled);
}

#[test]
fn a_sale_without_a_host_hands_on_the_hosts_error() {
    // outside a host there is no clock to read
    let mut ctx = purchase(event(0, 2), key(0xB1));
    let result = buy_ticket(&mut ctx, 1);
    assert!(matches!(result, Err(HandlerError::Program(_))));
    assert_eq!(ctx, purchase(event(0, 2), key(0xB1)));
}

#[test]
fn a_ticket_record_is_prepared_for_buyer_event_and_timestamp() {
    let mut ctx = InitializeTicketAccount {
        ticket: TicketAccount::default(),
        buyer: key(0xB1),
        event_key: key(0xE0),
        event: EventAccount { ticket_price: 890_880, ..event(0, 2) },
    };
    assert_eq!(initialize_ticket_account(&mut ctx, -7, 890_880), Ok(()));
    assert_eq!(
        ctx.ticket,
        TicketAccount { buyer: key(0xB1), event: key(0xE0), timestamp: -7, is_refunded: false }
    );
}

#[test]
fn a_ticket_record_is_refused_where_the_price_is_below_the_rent_minimum() {
    let mut ctx = InitializeTicketAccount {
        ticket: TicketAccount::default(),
        buyer: key(0xB1),
        event_key: key(0xE0),
        event: event(0, 2),
    };
    let result = initialize_ticket_account(&mut ctx, 1, 101);
    assert_eq!(result, Err(CustomError::InsufficientCollateral));
    assert_eq!(ctx.ticket, TicketAccount::default());
    assert_eq!(initialize_ticket_account(&mut ctx, 1, 100), Ok(()));
}

#[test]
fn a_ticket_record_takes_seventy_three_bytes() {
    assert_eq!(TicketAccount::MAX_SIZE, 73);
}

#[test]
fn the_accounts_of_a_purchase_name_the_derived_vault_and_ticket() {
    let program = Address::new([7u8; 32]);
    let ctx = BuyTicket::new(&program, key(0xE0), event(0, 2), key(0xB1), TicketAccount::default())
        .expect("derived");
    let (vault, _) = unite::pda::event_vault_address(&program, &key(0xE0)).expect("derived");
    assert_eq!(ctx.event_vault, vault);
    assert_eq!(ctx.event, event(0, 2));
    assert_eq!(ctx.buyer, key(0xB1));

    let (prepared, ticket_key) =
        InitializeTicketAccount::new(&program, key(0xE0), event(0, 2), key(0xB1), 5)
            .expect("derived");
    let (expected, _) =
        unite::pda::ticket_address(&program, &key(0xE0), &key(0xB1), 5).expect("derived");
    assert_eq!(ticket_key, expected);
    assert_eq!(prepared.ticket, TicketAccount::default());
    let (_, other) = InitializeTicketAccount::new(&program, key(0xE0), event(0, 2), key(0xB1), 6)
        .expect("derived");
    assert_ne!(ticket_key, other);
}
