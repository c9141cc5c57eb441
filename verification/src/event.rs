use crate::address::Address;
use crate::error::HandlerError;
use crate::organizer::{OrganizerAccount, OrganizerView};
use crate::pda::{event_address, program_address};
use crate::seeds::spec_event_seeds;
use vstd::prelude::*;
use vstd::utf8::encode_utf8;

verus! {

/// Most bytes that an event's title may take when encoded.
pub const MAX_TITLE_BYTES: usize = 100;

/// Most bytes that an event's description may take when encoded.
pub const MAX_DESCRIPTION_BYTES: usize = 256;

/// Most bytes that an event's city may take when encoded.
pub const MAX_CITY_BYTES: usize = 50;

/// Most bytes that an event's street address may take when encoded.
pub const MAX_ADDRESS_BYTES: usize = 100;

/// Most bytes that an event's image link may take when encoded.
pub const MAX_IMAGE_URL_BYTES: usize = 150;

/// The record of one event.
#[derive(Debug, PartialEq, Eq)]
pub struct EventAccount {
    /// The authority that created the event.
    pub organizer: Address,
    pub title: String,
    pub description: String,
    /// The time from which no ticket is sold.
    pub deadline: i64,
    /// The price of one ticket.
    pub ticket_price: u64,
    /// The least attendance the organizer hopes for. Stored; no operation
    /// reads it.
    pub quorum: u32,
    /// Tickets sold so far.
    pub attendees: u32,
    /// The most tickets that may be sold.
    pub maximum_capacity: u32,
    /// Read by ticket sales; no operation sets it.
    pub is_cancelled: bool,
    /// Read by ticket sales; no operation sets it.
    pub is_confirmed: bool,
    /// The bump with which the record's address derives from its labels.
    pub bump: u8,
    pub city: String,
    pub address: String,
    pub image_url: String,
}

/// An event record, as mathematics.
pub struct EventView {
    pub organizer: Seq<u8>,
    pub title: Seq<char>,
    pub description: Seq<char>,
    pub deadline: int,
    pub ticket_price: nat,
    pub quorum: nat,
    pub attendees: nat,
    pub maximum_capacity: nat,
    pub is_cancelled: bool,
    pub is_confirmed: bool,
    pub bump: u8,
    pub city: Seq<char>,
    pub address: Seq<char>,
    pub image_url: Seq<char>,
}

impl View for EventAccount {
    type V = EventView;

    open spec fn view(&self) -> EventView {
        EventView {
            organizer: self.organizer@,
            title: self.title@,
            description: self.description@,
            deadline: self.deadline as int,
            ticket_price: self.ticket_price as nat,
            quorum: self.quorum as nat,
            attendees: self.attendees as nat,
            maximum_capacity: self.maximum_capacity as nat,
            is_cancelled: self.is_cancelled,
            is_confirmed: self.is_confirmed,
            bump: self.bump,
            city: self.city@,
            address: self.address@,
            image_url: self.image_url@,
        }
    }
}

/// The number of bytes that a text takes when encoded as UTF-8.
pub open spec fn text_bytes(text: Seq<char>) -> nat {
    encode_utf8(text).len()
}

/// Whether each of an event's texts fits the bytes reserved for it.
pub open spec fn texts_fit(
    title: Seq<char>,
    description: Seq<char>,
    city: Seq<char>,
    address: Seq<char>,
    image_url: Seq<char>,
) -> bool {
    &&& text_bytes(title) <= MAX_TITLE_BYTES
    &&& text_bytes(description) <= MAX_DESCRIPTION_BYTES
    &&& text_bytes(city) <= MAX_CITY_BYTES
    &&& text_bytes(address) <= MAX_ADDRESS_BYTES
    &&& text_bytes(image_url) <= MAX_IMAGE_URL_BYTES
}

impl EventView {
    /// No more tickets are sold than the event has room for, and every text
    /// fits its storage.
    pub open spec fn inv(self) -> bool {
        &&& self.attendees <= self.maximum_capacity
        &&& texts_fit(self.title, self.description, self.city, self.address, self.image_url)
    }
}

impl EventAccount {
    /// Bytes of storage that the record's fields take at most: each text is
    /// stored behind four bytes that hold its length.
    pub const MAX_SIZE: usize = 32 + 4 + MAX_TITLE_BYTES + 4 + MAX_DESCRIPTION_BYTES + 8 + 8 + 4
        + 4 + 4 + 1 + 1 + 1 + 4 + MAX_CITY_BYTES + 4 + MAX_ADDRESS_BYTES + 4
        + MAX_IMAGE_URL_BYTES;

    /// The record's invariant.
    pub open spec fn inv(&self) -> bool {
        self@.inv()
    }
}

/// The terms on which an event is created.
#[derive(Debug, PartialEq, Eq)]
pub struct EventTerms {
    pub title: String,
    pub description: String,
    pub deadline: i64,
    pub ticket_price: u64,
    pub quorum: u32,
    pub maximum_capacity: u32,
    pub city: String,
    pub address: String,
    pub image_url: String,
}

/// The terms of an event, as mathematics.
pub struct EventTermsView {
    pub title: Seq<char>,
    pub description: Seq<char>,
    pub deadline: int,
    pub ticket_price: nat,
    pub quorum: nat,
    pub maximum_capacity: nat,
    pub city: Seq<char>,
    pub address: Seq<char>,
    pub image_url: Seq<char>,
}

impl View for EventTerms {
    type V = EventTermsView;

    open spec fn view(&self) -> EventTermsView {
        EventTermsView {
            title: self.title@,
            description: self.description@,
            deadline: self.deadline as int,
            ticket_price: self.ticket_price as nat,
            quorum: self.quorum as nat,
            maximum_capacity: self.maximum_capacity as nat,
            city: self.city@,
            address: self.address@,
            image_url: self.image_url@,
        }
    }
}

impl EventTermsView {
    /// Whether each text fits the bytes reserved for it.
    pub open spec fn fit(self) -> bool {
        texts_fit(self.title, self.description, self.city, self.address, self.image_url)
    }

    /// The event that `authority` creates on these terms.
    pub open spec fn event(self, authority: Seq<u8>, bump: u8) -> EventView {
        spec_new_event(
            authority,
            bump,
            self.title,
            self.description,
            self.deadline,
            self.ticket_price,
            self.quorum,
            self.maximum_capacity,
            self.city,
            self.address,
            self.image_url,
        )
    }
}

/// The accounts of the creation of an event.
#[derive(Clone, Debug, PartialEq, Eq)]
pub struct CreateEvent {
    /// The record of the organizer who creates the event.
    pub organizer: OrganizerAccount,
    /// The record being created.
    pub event: EventAccount,
    /// The signer: the organizer's authority, who pays for the record.
    pub authority: Address,
    /// The bump with which the new record's address derives from its labels.
    pub event_bump: u8,
}

/// The event that `authority` creates from the given terms.
pub open spec fn spec_new_event(
    authority: Seq<u8>,
    bump: u8,
    title: Seq<char>,
    description: Seq<char>,
    deadline: int,
    ticket_price: nat,
    quorum: nat,
    maximum_capacity: nat,
    city: Seq<char>,
    address: Seq<char>,
    image_url: Seq<char>,
) -> EventView {
    EventView {
        organizer: authority,
        title,
        description,
        deadline,
        ticket_price,
        quorum,
        attendees: 0,
        maximum_capacity,
        is_cancelled: false,
        is_confirmed: false,
        bump,
        city,
        address,
        image_url,
    }
}

/// The record as the host hands it out before the event is created: all zero,
/// every text empty.
pub open spec fn spec_blank_event() -> EventView {
    spec_new_event(
        Seq::new(32, |i: int| 0u8),
        0,
        Seq::empty(),
        Seq::empty(),
        0,
        0,
        0,
        0,
        Seq::empty(),
        Seq::empty(),
        Seq::empty(),
    )
}

impl Clone for EventAccount {
    fn clone(&self) -> (copy: EventAccount)
        ensures
            copy == *self,
    {
        EventAccount {
            organizer: self.organizer,
            title: self.title.clone(),
            description: self.description.clone(),
            deadline: self.deadline,
            ticket_price: self.ticket_price,
            quorum: self.quorum,
            attendees: self.attendees,
            maximum_capacity: self.maximum_capacity,
            is_cancelled: self.is_cancelled,
            is_confirmed: self.is_confirmed,
            bump: self.bump,
            city: self.city.clone(),
            address: self.address.clone(),
            image_url: self.image_url.clone(),
        }
    }
}

impl Default for EventAccount {
    fn default() -> (blank: EventAccount)
        ensures
            blank@ == spec_blank_event(),
    {
        EventAccount {
            organizer: Address::default(),
            title: String::new(),
            description: String::new(),
            deadline: 0,
            ticket_price: 0,
            quorum: 0,
            attendees: 0,
            maximum_capacity: 0,
            is_cancelled: false,
            is_confirmed: false,
            bump: 0,
            city: String::new(),
            address: String::new(),
            image_url: String::new(),
        }
    }
}

impl CreateEvent {
    /// The accounts with which `authority` creates its next event under the
    /// program `program_id`, and the address of the new record: the one that
    /// the host derives for the authority and the organizer's present event
    /// count. `None` where the host derives no address.
    pub fn new(program_id: &Address, organizer: OrganizerAccount, authority: Address) -> (found:
        Option<(CreateEvent, Address)>)
        ensures
            match program_address(
                spec_event_seeds(authority@, organizer.event_count),
                program_id@,
            ) {
                Some((address, bump)) => {
                    &&& found matches Some((ctx, key))
                    &&& ctx.organizer == organizer
                    &&& ctx.event@ == spec_blank_event()
                    &&& ctx.authority == authority
                    &&& ctx.event_bump == bump
                    &&& key@ == address
                },
                None => found is None,
            },
    {
        match event_address(program_id, &authority, organizer.event_count) {
            Some((address, bump)) => Some(
                (
                    CreateEvent {
                        organizer,
                        event: EventAccount::default(),
                        authority,
                        event_bump: bump,
                    },
                    address,
                ),
            ),
            None => None,
        }
    }
}

/// The organizer after it has created one more event.
pub open spec fn spec_count_event(organizer: OrganizerView) -> OrganizerView {
    OrganizerView { event_count: organizer.event_count + 1, ..organizer }
}

fn text_len(text: &String) -> (n: usize)
    ensures
        n == text_bytes(text@),
{
    let bytes = text.as_str().as_bytes();
    proof {
        vstd::slice::axiom_spec_len(bytes);
    }
    bytes.len()
}

/// Creates an event with the given terms for the organizer of `ctx`.
///
/// Deadline, price, quorum and capacity are taken as they are. Where a text is
/// longer than its storage the operation fails with `TextTooLong` and changes
/// nothing. Otherwise the new record holds the terms, no attendees, and is
/// neither cancelled nor confirmed, and the organizer's event count grows by
/// one.
pub fn create_event(
    ctx: &mut CreateEvent,
    title: String,
    description: String,
    deadline: i64,
    ticket_price: u64,
    quorum: u32,
    maximum_capacity: u32,
    city: String,
    address: String,
    image_url: String,
) -> (result: Result<(), HandlerError>)
    requires
        old(ctx).organizer.event_count < u32::MAX,
    ensures
        texts_fit(title@, description@, city@, address@, image_url@) ==> {
            &&& result is Ok
            &&& final(ctx).event@ == spec_new_event(
                old(ctx).authority@,
                old(ctx).event_bump,
                title@,
                description@,
                deadline as int,
                ticket_price as nat,
                quorum as nat,
                maximum_capacity as nat,
                city@,
                address@,
                image_url@,
            )
            &&& final(ctx).event.inv()
            &&& final(ctx).organizer@ == spec_count_event(old(ctx).organizer@)
        },
        !texts_fit(title@, description@, city@, address@, image_url@) ==> {
            &&& result is Err
            &&& result->Err_0 is TextTooLong
            &&& *final(ctx) == *old(ctx)
        },
        old(ctx).organizer.inv() ==> final(ctx).organizer.inv(),
        final(ctx).authority == old(ctx).authority,
        final(ctx).event_bump == old(ctx).event_bump,
{
    if text_len(&title) > MAX_TITLE_BYTES || text_len(&description) > MAX_DESCRIPTION_BYTES
        || text_len(&city) > MAX_CITY_BYTES || text_len(&address) > MAX_ADDRESS_BYTES
        || text_len(&image_url) > MAX_IMAGE_URL_BYTES {
        return Err(HandlerError::TextTooLong);
    }
    ctx.event.organizer = ctx.authority;
    ctx.event.title = title;
    ctx.event.description = description;
    ctx.event.deadline = deadline;
    ctx.event.ticket_price = ticket_price;
    ctx.event.quorum = quorum;
    ctx.event.attendees = 0;
    ctx.event.maximum_capacity = maximum_capacity;
    ctx.event.is_cancelled = false;
    ctx.event.is_confirmed = false;
    ctx.event.bump = ctx.event_bump;
    ctx.event.city = city;
    ctx.event.address = address;
    ctx.event.image_url = image_url;
    ctx.organizer.event_count = ctx.organizer.event_count + 1;
    Ok(())
}

} // verus!
