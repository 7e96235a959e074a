//! Stored events and tickets, and the payloads that create or change them.
//! Ids are 128-bit values; times are milliseconds since the Unix epoch.

use vstd::prelude::*;
use crate::roles::{EventStatus, Role, UserStatus};
use crate::text::join2;

verus! {

/// What `slugify::slugify(s, "", "-", None)` makes of a text.
pub uninterp spec fn slug_of(s: Seq<char>) -> Seq<char>;

/// Relies on `slugify::slugify` with no stop words, `-` as separator and no
/// length limit: a URL-friendly form of the text, which depends on the text alone.
#[verifier::external_body]
pub(crate) fn slug(s: &str) -> (r: String)
    ensures
        r@ == slug_of(s@),
{
    slugify::slugify(s, "", "-", None)
}

/// A stored user. The wallet's secret key is kept only in sealed form.
#[derive(Clone, Debug)]
pub struct DbUser {
    pub id: u128,
    pub name: Option<String>,
    pub username: String,
    pub phone_number: Option<String>,
    pub email: Option<String>,
    pub password: Option<String>,
    pub encrypted_secret_key: Option<String>,
    pub created_at: i64,
    pub wallet_id: String,
    pub wallet_balance: String,
    pub user_type: Role,
    pub user_status: UserStatus,
}

impl DbUser {
    /// A new user record created at `now`.
    pub fn new(
        id: u128,
        name: Option<String>,
        username: String,
        phone_number: Option<String>,
        email: Option<String>,
        password: Option<String>,
        encrypted_secret_key: Option<String>,
        user_type: Role,
        wallet_id: String,
        wallet_balance: String,
        user_status: UserStatus,
        now: i64,
    ) -> (r: DbUser)
        ensures
            r == (DbUser {
                id,
                name,
                username,
                phone_number,
                email,
                password,
                encrypted_secret_key,
                created_at: now,
                wallet_id,
                wallet_balance,
                user_type,
                user_status,
            }),
    {
        DbUser {
            id,
            name,
            username,
            phone_number,
            email,
            password,
            encrypted_secret_key,
            created_at: now,
            wallet_id,
            wallet_balance,
            user_type,
            user_status,
        }
    }
}

/// A stored event.
#[derive(Clone, Debug)]
pub struct DbEvent {
    pub id: u128,
    pub event_name: String,
    pub event_slug: String,
    pub start_date: Option<i64>,
    pub end_date: Option<i64>,
    pub entry_time: Option<i64>,
    pub created_at: i64,
    pub description: Option<String>,
    pub is_virtual: Option<bool>,
    pub is_featured: Option<bool>,
    pub venue_name: Option<String>,
    pub venue_location: Option<String>,
    pub cover_photo_url: Option<String>,
    pub thumbnail_url: Option<String>,
    pub event_status: EventStatus,
    pub created_by_user: u128,
}

/// A stored ticket kind of an event.
#[derive(Clone, Debug)]
pub struct DbTicket {
    pub id: u128,
    pub created_at: i64,
    pub ticket_name: String,
    pub ticket_slug: String,
    pub description: Option<String>,
    pub price: Option<String>,
    pub max_release_price: Option<String>,
    pub quantity_available: Option<i32>,
    pub min_purchase_quantity: Option<i32>,
    pub max_purchase_quantity: Option<i32>,
    pub allow_transfers: Option<bool>,
    pub event_id: u128,
}

/// A request to create a ticket kind.
#[derive(Clone, Debug)]
pub struct NewTicket {
    pub ticket_name: String,
    pub description: Option<String>,
    pub price: Option<String>,
    pub max_release_price: Option<String>,
    pub quantity_available: Option<i32>,
    pub min_purchase_quantity: Option<i32>,
    pub max_purchase_quantity: Option<i32>,
    pub allow_transfers: Option<bool>,
    pub event_id: String,
}

/// A request to change a ticket kind; absent fields stay as they are.
#[derive(Clone, Debug)]
pub struct UpdateTicket {
    pub id: String,
    pub ticket_name: Option<String>,
    pub description: Option<String>,
    pub price: Option<String>,
    pub max_release_price: Option<String>,
    pub quantity_available: Option<i32>,
    pub min_purchase_quantity: Option<i32>,
    pub max_purchase_quantity: Option<i32>,
    pub allow_transfers: Option<bool>,
}

/// A request to change an event; absent fields stay as they are.
#[derive(Clone, Debug)]
pub struct UpdateEvent {
    pub id: String,
    pub event_name: Option<String>,
    pub start_date: Option<i64>,
    pub end_date: Option<i64>,
    pub entry_time: Option<i64>,
    pub description: Option<String>,
    pub is_virtual: Option<bool>,
    pub is_featured: Option<bool>,
    pub venue_name: Option<String>,
    pub venue_location: Option<String>,
    pub cover_photo_base64: Option<String>,
    pub thumbnail_base64: Option<String>,
}

impl DbEvent {
    /// A new draft event named `event_name`, created by `created_by_user` at `now`.
    pub fn new(id: u128, event_name: &str, created_by_user: u128, now: i64) -> (r: DbEvent)
        ensures
            r.id == id,
            r.event_name@ == event_name@,
            r.event_slug@ == slug_of(event_name@),
            r.created_at == now,
            r.event_status == EventStatus::Draft,
            r.created_by_user == created_by_user,
            r.start_date is None && r.end_date is None && r.entry_time is None,
            r.description is None && r.is_virtual is None && r.is_featured is None,
            r.venue_name is None && r.venue_location is None,
            r.cover_photo_url is None && r.thumbnail_url is None,
    {
        DbEvent {
            id,
            event_slug: slug(event_name),
            event_name: String::from_str(event_name),
            start_date: None,
            end_date: None,
            entry_time: None,
            created_at: now,
            description: None,
            is_virtual: None,
            is_featured: None,
            venue_name: None,
            venue_location: None,
            cover_photo_url: None,
            thumbnail_url: None,
            event_status: EventStatus::Draft,
            created_by_user,
        }
    }
}

/// A ticket's slug: its event's slug, a dash, and the slug of its name.
pub open spec fn ticket_slug_of(event_slug: Seq<char>, ticket_name: Seq<char>) -> Seq<char> {
    event_slug + seq!['-'] + slug_of(ticket_name)
}

pub fn ticket_slug(event_slug: &str, ticket_name: &str) -> (r: String)
    ensures
        r@ == ticket_slug_of(event_slug@, ticket_name@),
{
    let s = join2(event_slug, "-");
    proof {
        reveal_strlit("-");
        assert("-"@ =~= seq!['-']);
    }
    let name_slug = slug(ticket_name);
    s.concat(name_slug.as_str())
}

impl DbTicket {
    /// A new ticket kind of `db_event` from a creation request, at `now`.
    pub fn new(id: u128, ticket: NewTicket, db_event: &DbEvent, now: i64) -> (r: DbTicket)
        ensures
            r.id == id,
            r.created_at == now,
            r.ticket_name == ticket.ticket_name,
            r.ticket_slug@ == ticket_slug_of(db_event.event_slug@, ticket.ticket_name@),
            r.description == ticket.description,
            r.price == ticket.price,
            r.max_release_price == ticket.max_release_price,
            r.quantity_available == ticket.quantity_available,
            r.min_purchase_quantity == ticket.min_purchase_quantity,
            r.max_purchase_quantity == ticket.max_purchase_quantity,
            r.allow_transfers == ticket.allow_transfers,
            r.event_id == db_event.id,
    {
        let ticket_slug = ticket_slug(db_event.event_slug.as_str(), ticket.ticket_name.as_str());
        DbTicket {
            id,
            created_at: now,
            ticket_name: ticket.ticket_name,
            ticket_slug,
            description: ticket.description,
            price: ticket.price,
            max_release_price: ticket.max_release_price,
            quantity_available: ticket.quantity_available,
            min_purchase_quantity: ticket.min_purchase_quantity,
            max_purchase_quantity: ticket.max_purchase_quantity,
            allow_transfers: ticket.allow_transfers,
            event_id: db_event.id,
        }
    }
}

} // verus!
