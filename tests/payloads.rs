use gql_api::error::{GqlError, TicketError};
use gql_api::models::{DbEvent, DbTicket, NewTicket, UpdateEvent, UpdateTicket};
use gql_api::reservation::{check_reservation, event_of_reservations, TicketReservation};
use gql_api::roles::{EventStatus, Role};
use gql_api::validation::{
    check_event_access, status_after_mint, EventAction, check_new_ticket_payload, is_float_text, update_event_mutation_payload, update_ticket_mutation_payload,
};

fn uuid_text(id: u128) -> String {
    format!("00000000-0000-0000-0000-{:012x}", id)
}

fn field_of(r: Result<(), GqlError>) -> String {
    match r {
        Err(GqlError::Validation(v)) => v.field,
        other => panic!("expected a validation error, got {:?}", other),
    }
}

fn new_ticket() -> NewTicket {
    NewTicket {
        ticket_name: "General".to_string(),
        description: Some("Standing".to_string()),
        price: Some("12.50".to_string()),
        max_release_price: Some("20".to_string()),
        quantity_available: Some(100),
        min_purchase_quantity: Some(1),
        max_purchase_quantity: Some(4),
        allow_transfers: Some(true),
        event_id: "e".to_string(),
    }
}

fn event() -> DbEvent {
    DbEvent::new(1, "Summer Fest", 9, 1_000)
}

#[test]
fn float_grammar() {
    for ok in ["1", "1.5", ".5", "5.", "-2", "+3.0", "1e10", "1E-3", "2.5e+4", "inf", "-Infinity", "NaN", "0"] {
        assert!(is_float_text(ok), "{}", ok);
        assert!(ok.parse::<f64>().is_ok());
    }
    for bad in ["", ".", "abc", "1.2.3", "e5", "1e", "1e+", " 1", "1 ", "--1", "+", "infinit", "0x10", "1,5"] {
        assert!(!is_float_text(bad), "{}", bad);
        assert!(bad.parse::<f64>().is_err());
    }
}

#[test]
fn new_ticket_checks_in_order() {
    assert_eq!(check_new_ticket_payload(&new_ticket()), Ok(()));
    let mut t = new_ticket();
    t.ticket_name = "x".repeat(21);
    t.description = Some(String::new());
    assert_eq!(field_of(check_new_ticket_payload(&t)), "ticket_name");
    let mut t = new_ticket();
    t.description = Some(String::new());
    assert_eq!(field_of(check_new_ticket_payload(&t)), "ticket_description");
    let mut t = new_ticket();
    t.quantity_available = Some(0);
    assert_eq!(field_of(check_new_ticket_payload(&t)), "ticket_quantity_available");
    let mut t = new_ticket();
    t.min_purchase_quantity = Some(0);
    assert_eq!(field_of(check_new_ticket_payload(&t)), "ticket_min_purchase_quantity");
    let mut t = new_ticket();
    t.max_purchase_quantity = Some(0);
    assert_eq!(field_of(check_new_ticket_payload(&t)), "ticket_max_purchase_quantity");
    let mut t = new_ticket();
    t.min_purchase_quantity = Some(5);
    assert_eq!(field_of(check_new_ticket_payload(&t)), "ticket_min_max_purchase_quantity");
    let mut t = new_ticket();
    t.price = Some("twelve".to_string());
    match check_new_ticket_payload(&t) {
        Err(GqlError::Validation(v)) => {
            assert_eq!(v.field, "ticket_price");
            assert_eq!(v.message, "Ticket price is unparsable");
        },
        other => panic!("{:?}", other),
    }
    let mut t = new_ticket();
    t.max_release_price = Some("1.2.3".to_string());
    assert_eq!(field_of(check_new_ticket_payload(&t)), "ticket_max_release_price");
    let mut t = new_ticket();
    t.ticket_name = "x".repeat(20);
    t.description = None;
    t.price = None;
    assert_eq!(check_new_ticket_payload(&t), Ok(()));
}

#[test]
fn ticket_update_applies_fields_and_renames_slug() {
    let e = event();
    assert_eq!(e.event_slug, "summer-fest");
    let mut t = DbTicket::new(5, new_ticket(), &e, 2_000);
    assert_eq!(t.ticket_slug, "summer-fest-general");
    let u = UpdateTicket {
        id: "5".to_string(),
        ticket_name: Some("VIP Lounge".to_string()),
        description: None,
        price: Some("99".to_string()),
        max_release_price: None,
        quantity_available: None,
        min_purchase_quantity: None,
        max_purchase_quantity: Some(2),
        allow_transfers: Some(false),
    };
    assert_eq!(update_ticket_mutation_payload(u, &e, &mut t), Ok(()));
    assert_eq!(t.ticket_name, "VIP Lounge");
    assert_eq!(t.ticket_slug, "summer-fest-vip-lounge");
    assert_eq!(t.price, Some("99".to_string()));
    assert_eq!(t.description, Some("Standing".to_string()));
    assert_eq!(t.max_purchase_quantity, Some(2));
    assert_eq!(t.allow_transfers, Some(false));

    let bad = UpdateTicket {
        id: "5".to_string(),
        ticket_name: Some(String::new()),
        description: None,
        price: Some("1".to_string()),
        max_release_price: None,
        quantity_available: None,
        min_purchase_quantity: None,
        max_purchase_quantity: None,
        allow_transfers: None,
    };
    assert_eq!(field_of(update_ticket_mutation_payload(bad, &e, &mut t)), "ticket_name");
    assert_eq!(t.price, Some("99".to_string()));
}

fn no_change() -> UpdateEvent {
    UpdateEvent {
        id: "1".to_string(),
        event_name: None,
        start_date: None,
        end_date: None,
        entry_time: None,
        description: None,
        is_virtual: None,
        is_featured: None,
        venue_name: None,
        venue_location: None,
        cover_photo_base64: None,
        thumbnail_base64: None,
    }
}

#[test]
fn event_update_checks_dates_against_creation_and_each_other() {
    let mut e = event();
    let mut u = no_change();
    u.start_date = Some(500);
    assert_eq!(field_of(update_event_mutation_payload(u, &mut e)), "event_start_date");
    let mut u = no_change();
    u.start_date = Some(5_000);
    u.end_date = Some(4_000);
    assert_eq!(field_of(update_event_mutation_payload(u, &mut e)), "event_start_end_date");
    let mut u = no_change();
    u.entry_time = Some(5_000);
    u.end_date = Some(5_000);
    assert_eq!(field_of(update_event_mutation_payload(u, &mut e)), "event_end_entrytime_date");
    let mut u = no_change();
    u.start_date = Some(5_000);
    u.entry_time = Some(5_000);
    assert_eq!(field_of(update_event_mutation_payload(u, &mut e)), "event_start_entrytime_date");
    let mut u = no_change();
    u.event_name = Some("x".repeat(21));
    assert_eq!(field_of(update_event_mutation_payload(u, &mut e)), "event_name");
    let mut u = no_change();
    u.thumbnail_base64 = Some(String::new());
    assert_eq!(field_of(update_event_mutation_payload(u, &mut e)), "event_thumbnail");
    assert_eq!(e.start_date, None);

    let mut u = no_change();
    u.event_name = Some("Winter Gala".to_string());
    u.start_date = Some(5_000);
    u.entry_time = Some(6_000);
    u.end_date = Some(9_000);
    u.venue_name = Some("Hall".to_string());
    assert_eq!(update_event_mutation_payload(u, &mut e), Ok(()));
    assert_eq!(e.event_name, "Winter Gala");
    assert_eq!(e.event_slug, "winter-gala");
    assert_eq!((e.start_date, e.entry_time, e.end_date), (Some(5_000), Some(6_000), Some(9_000)));
    assert_eq!(e.venue_name, Some("Hall".to_string()));

    let mut u = no_change();
    u.end_date = Some(5_500);
    assert_eq!(field_of(update_event_mutation_payload(u, &mut e)), "event_end_entrytime_date");
}

#[test]
fn reservations_share_one_code() {
    let existing = vec![TicketReservation::new(1, 0, "123456", 10, 20, 30)];
    assert_eq!(
        check_reservation(None, 21, 10, 30, "123456", &existing),
        Err(TicketError::NoExistTicketUuid(uuid_text(21)))
    );
    assert_eq!(
        check_reservation(Some(11), 20, 10, 30, "123456", &existing),
        Err(TicketError::TicketEventMismatch(uuid_text(10)))
    );
    assert_eq!(
        check_reservation(Some(10), 20, 10, 30, "123456", &existing),
        Err(TicketError::AlreadyReservedForUser(uuid_text(30)))
    );
    assert_eq!(check_reservation(Some(10), 20, 10, 30, "654321", &existing), Ok(()));
}

#[test]
fn event_from_reservations() {
    assert_eq!(
        event_of_reservations(&vec![], 30, "123456"),
        Err(TicketError::NoTicketReservationsForCode("123456".to_string()))
    );
    let rs = vec![TicketReservation::new(1, 0, "123456", 10, 20, 30), TicketReservation::new(2, 0, "123456", 10, 21, 30)];
    assert_eq!(event_of_reservations(&rs, 30, "123456"), Ok(10));
    assert_eq!(event_of_reservations(&rs, 31, "123456"), Err(TicketError::WrongUserReserved(uuid_text(31))));
    let mixed = vec![TicketReservation::new(1, 0, "123456", 10, 20, 30), TicketReservation::new(2, 0, "123456", 12, 21, 30)];
    assert_eq!(event_of_reservations(&mixed, 30, "123456"), Err(TicketError::TicketEventMismatch(uuid_text(10))));
}

#[test]
fn event_access_rules() {
    let ok = check_event_access(EventAction::Edit, 1, Role::Seller, EventStatus::Draft, 1);
    assert_eq!(ok, Ok(()));
    assert_eq!(field_of(check_event_access(EventAction::Edit, 1, Role::Seller, EventStatus::Final, 2)), "event_status");
    assert_eq!(field_of(check_event_access(EventAction::Delete, 1, Role::Seller, EventStatus::Draft, 2)), "event_creator");
    assert_eq!(field_of(check_event_access(EventAction::Mint, 1, Role::Buyer, EventStatus::Draft, 1)), "user_role");
    assert_eq!(check_event_access(EventAction::Mint, 1, Role::Seller, EventStatus::Minting, 1), Ok(()));
    assert_eq!(field_of(check_event_access(EventAction::AddTickets, 1, Role::Seller, EventStatus::Final, 2)), "event_creator");
    match check_event_access(EventAction::DeleteTickets, 1, Role::Seller, EventStatus::Minting, 1) {
        Err(GqlError::Validation(v)) => {
            assert_eq!(v.message, "Tickets could only be deleted for an event with status DRAFT")
        },
        other => panic!("{:?}", other),
    }
    assert_eq!(status_after_mint(EventStatus::Draft), EventStatus::Minting);
    assert_eq!(status_after_mint(EventStatus::Final), EventStatus::Final);
}

#[test]
fn name_limits_count_utf8_bytes() {
    let mut t = new_ticket();
    t.ticket_name = "é".repeat(11);
    assert_eq!(t.ticket_name.chars().count(), 11);
    assert_eq!(field_of(check_new_ticket_payload(&t)), "ticket_name");
    t.ticket_name = "é".repeat(10);
    assert_eq!(check_new_ticket_payload(&t), Ok(()));
    let mut e = event();
    let mut u = no_change();
    u.event_name = Some("ü".repeat(11));
    assert_eq!(field_of(update_event_mutation_payload(u, &mut e)), "event_name");
}
