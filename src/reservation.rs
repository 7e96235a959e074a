//! Ticket redemption: reservations that share one verification code, and
//! resolving the event a code was issued for.

use vstd::prelude::*;
use crate::error::TicketError;
use crate::text::{str_eq, uuid_text, uuid_text_of};

verus! {

/// One reserved ticket; all reservations of one request share its code.
#[derive(Debug)]
pub struct TicketReservation {
    pub id: u128,
    pub created_at: u64,
    pub verification_code: String,
    pub event_id: u128,
    pub ticket_id: u128,
    pub user_id: u128,
}

impl TicketReservation {
    pub fn new(id: u128, created_at: u64, verification_code: &str, event_id: u128, ticket_id: u128, user_id: u128) -> (r: TicketReservation)
        ensures
            r.id == id && r.created_at == created_at && r.verification_code@ == verification_code@,
            r.event_id == event_id && r.ticket_id == ticket_id && r.user_id == user_id,
    {
        TicketReservation { id, created_at, verification_code: String::from_str(verification_code), event_id, ticket_id, user_id }
    }
}

pub open spec fn duplicates(r: TicketReservation, ticket_id: u128, event_id: u128, user_id: u128, code: Seq<char>) -> bool {
    r.ticket_id == ticket_id && r.event_id == event_id && r.user_id == user_id && r.verification_code@ == code
}

/// Checks one requested reservation: the ticket must exist (`ticket_event` is
/// the event of the stored ticket, if there is one), belong to the event, and
/// not already be reserved by the user under the same code.
pub fn check_reservation(
    ticket_event: Option<u128>,
    ticket_id: u128,
    event_id: u128,
    user_id: u128,
    code: &str,
    existing: &Vec<TicketReservation>,
) -> (r: Result<(), TicketError>)
    ensures
        (match ticket_event {
            None => r matches Err(TicketError::NoExistTicketUuid(t)) && t@ == uuid_text_of(ticket_id),
            Some(e) => if e != event_id {
                r matches Err(TicketError::TicketEventMismatch(t)) && t@ == uuid_text_of(event_id)
            } else if exists|i: int| 0 <= i < existing@.len() && duplicates(#[trigger] existing@[i], ticket_id, event_id, user_id, code@) {
                r matches Err(TicketError::AlreadyReservedForUser(t)) && t@ == uuid_text_of(user_id)
            } else {
                r == Ok::<(), TicketError>(())
            },
        }),
{
    match ticket_event {
        None => return Err(TicketError::NoExistTicketUuid(uuid_text(ticket_id))),
        Some(e) => if e != event_id {
            return Err(TicketError::TicketEventMismatch(uuid_text(event_id)));
        },
    }
    let mut i: usize = 0;
    while i < existing.len()
        invariant
            i <= existing@.len(),
            ticket_event == Some(event_id),
            forall|j: int| 0 <= j < i ==> !duplicates(#[trigger] existing@[j], ticket_id, event_id, user_id, code@),
        decreases existing@.len() - i,
    {
        let r = &existing[i];
        if r.ticket_id == ticket_id && r.event_id == event_id && r.user_id == user_id && str_eq(r.verification_code.as_str(), code) {
            assert(duplicates(existing@[i as int], ticket_id, event_id, user_id, code@));
            return Err(TicketError::AlreadyReservedForUser(uuid_text(user_id)));
        }
        i = i + 1;
    }
    Ok(())
}

/// The event that the reservations found for a code were made for: there
/// must be some, all made by the calling user, all for one event.
pub fn event_of_reservations(reservations: &Vec<TicketReservation>, user_id: u128, code: &str) -> (r: Result<u128, TicketError>)
    ensures
        reservations@.len() == 0 ==> (r matches Err(TicketError::NoTicketReservationsForCode(t)) && t@ == code@),
        reservations@.len() > 0 && (exists|i: int| 0 <= i < reservations@.len() && (#[trigger] reservations@[i]).user_id != user_id)
            ==> (r matches Err(TicketError::WrongUserReserved(t)) && t@ == uuid_text_of(user_id)),
        reservations@.len() > 0 && (forall|i: int| 0 <= i < reservations@.len() ==> (#[trigger] reservations@[i]).user_id == user_id)
            && (exists|i: int| 0 <= i < reservations@.len() && (#[trigger] reservations@[i]).event_id != reservations@[0].event_id)
            ==> (r matches Err(TicketError::TicketEventMismatch(t)) && t@ == uuid_text_of(reservations@[0].event_id)),
        reservations@.len() > 0 && (forall|i: int| 0 <= i < reservations@.len() ==> (#[trigger] reservations@[i]).user_id == user_id
            && reservations@[i].event_id == reservations@[0].event_id) ==> r == Ok::<u128, TicketError>(reservations@[0].event_id),
{
    if reservations.len() == 0 {
        return Err(TicketError::NoTicketReservationsForCode(String::from_str(code)));
    }
    let mut i: usize = 0;
    while i < reservations.len()
        invariant
            i <= reservations@.len(),
            forall|j: int| 0 <= j < i ==> (#[trigger] reservations@[j]).user_id == user_id,
        decreases reservations@.len() - i,
    {
        if reservations[i].user_id != user_id {
            return Err(TicketError::WrongUserReserved(uuid_text(user_id)));
        }
        i = i + 1;
    }
    let event_id = reservations[0].event_id;
    let mut k: usize = 0;
    while k < reservations.len()
        invariant
            k <= reservations@.len(),
            reservations@.len() > 0,
            event_id == reservations@[0].event_id,
            forall|j: int| 0 <= j < reservations@.len() ==> (#[trigger] reservations@[j]).user_id == user_id,
            forall|j: int| 0 <= j < k ==> (#[trigger] reservations@[j]).event_id == event_id,
        decreases reservations@.len() - k,
    {
        if reservations[k].event_id != event_id {
            return Err(TicketError::TicketEventMismatch(uuid_text(event_id)));
        }
        k = k + 1;
    }
    Ok(event_id)
}

} // verus!
