//! Validation of ticket and event payloads.

use vstd::prelude::*;
use vstd::utf8::encode_utf8;
use crate::error::{GqlError, ValidationError};
use crate::text::utf8_len_exceeds;
use crate::roles::{EventStatus, Role};
use crate::models::{DbEvent, DbTicket, NewTicket, UpdateEvent, UpdateTicket, slug, slug_of, ticket_slug, ticket_slug_of};

verus! {

pub open spec fn is_digit(c: char) -> bool {
    '0' <= c <= '9'
}

pub open spec fn is_sign(c: char) -> bool {
    c == '+' || c == '-'
}

pub open spec fn is_exp_mark(c: char) -> bool {
    c == 'e' || c == 'E'
}

pub open spec fn all_digits(s: Seq<char>) -> bool {
    forall|i: int| 0 <= i < s.len() ==> is_digit(#[trigger] s[i])
}

/// Digits with at most one decimal point, and at least one digit.
pub open spec fn mantissa_ok(m: Seq<char>) -> bool {
    &&& forall|i: int| 0 <= i < m.len() ==> is_digit(#[trigger] m[i]) || m[i] == '.'
    &&& forall|i: int, j: int| 0 <= i < m.len() && 0 <= j < m.len() && #[trigger] m[i] == '.' && #[trigger] m[j] == '.' ==> i == j
    &&& exists|i: int| 0 <= i < m.len() && is_digit(#[trigger] m[i])
}

/// An optional sign followed by at least one digit.
pub open spec fn exponent_ok(x: Seq<char>) -> bool {
    (x.len() >= 1 && all_digits(x)) || (x.len() >= 2 && is_sign(x[0]) && all_digits(x.skip(1)))
}

/// A mantissa, optionally followed by `e` or `E` and an exponent.
pub open spec fn number_ok(b: Seq<char>) -> bool {
    mantissa_ok(b) || exists|k: int| 0 <= k < b.len() && #[trigger] is_exp_mark(b[k]) && mantissa_ok(b.take(k)) && exponent_ok(b.skip(k + 1))
}

/// The upper-case form of the letters the special float words use.
pub open spec fn upper_of(t: char) -> char {
    if t == 'a' {
        'A'
    } else if t == 'f' {
        'F'
    } else if t == 'i' {
        'I'
    } else if t == 'n' {
        'N'
    } else if t == 't' {
        'T'
    } else if t == 'y' {
        'Y'
    } else {
        t
    }
}

/// `c` is the lower-case letter `t`, in either case.
pub open spec fn ci_eq(c: char, t: char) -> bool {
    c == t || c == upper_of(t)
}

fn upper(t: char) -> (r: char)
    ensures
        r == upper_of(t),
{
    if t == 'a' {
        'A'
    } else if t == 'f' {
        'F'
    } else if t == 'i' {
        'I'
    } else if t == 'n' {
        'N'
    } else if t == 't' {
        'T'
    } else if t == 'y' {
        'Y'
    } else {
        t
    }
}

pub open spec fn ci_word(b: Seq<char>, w: Seq<char>) -> bool {
    b.len() == w.len() && forall|i: int| 0 <= i < b.len() ==> ci_eq(#[trigger] b[i], w[i])
}

pub open spec fn special_ok(b: Seq<char>) -> bool {
    ci_word(b, seq!['i', 'n', 'f']) || ci_word(b, seq!['i', 'n', 'f', 'i', 'n', 'i', 't', 'y']) || ci_word(
        b,
        seq!['n', 'a', 'n'],
    )
}

pub open spec fn unsigned_float_ok(b: Seq<char>) -> bool {
    special_ok(b) || number_ok(b)
}

/// The texts std's `f64` parser accepts: an optional sign, then `inf`,
/// `infinity` or `nan` in any case, or a decimal number with an optional
/// exponent; no surrounding whitespace.
pub open spec fn float_text_ok(s: Seq<char>) -> bool {
    unsigned_float_ok(s) || (s.len() >= 1 && is_sign(s[0]) && unsigned_float_ok(s.skip(1)))
}

fn chars_of(s: &str) -> (r: Vec<char>)
    ensures
        r@ == s@,
{
    let n = s.unicode_len();
    let mut r: Vec<char> = Vec::new();
    let mut i: usize = 0;
    while i < n
        invariant
            n == s@.len(),
            i <= n,
            r@ == s@.take(i as int),
        decreases n - i,
    {
        r.push(s.get_char(i));
        i = i + 1;
        assert(r@ =~= s@.take(i as int));
    }
    assert(s@.take(n as int) =~= s@);
    r
}

fn ci_word_at(s: &Vec<char>, from: usize, w: &[char]) -> (r: bool)
    requires
        from <= s@.len(),
    ensures
        r == ci_word(s@.skip(from as int), w@),
{
    let n = s.len();
    if n - from != w.len() {
        return false;
    }
    let mut i: usize = 0;
    while i < w.len()
        invariant
            n == s@.len(),
            from <= n,
            n - from == w@.len(),
            i <= w@.len(),
            forall|j: int| 0 <= j < i ==> ci_eq(#[trigger] s@.skip(from as int)[j], w@[j]),
        decreases w@.len() - i,
    {
        let c = s[from + i];
        let t = w[i];
        assert(s@.skip(from as int)[i as int] == s@[from + i]);
        if !(c == t || c == upper(t)) {
            return false;
        }
        i = i + 1;
    }
    true
}

fn mantissa_check(s: &Vec<char>, from: usize, to: usize) -> (r: bool)
    requires
        from <= to <= s@.len(),
    ensures
        r == mantissa_ok(s@.subrange(from as int, to as int)),
{
    let ghost m = s@.subrange(from as int, to as int);
    let mut i: usize = from;
    let mut dot: Option<usize> = None;
    let mut digit_seen = false;
    while i < to
        invariant
            from <= i <= to <= s@.len(),
            m == s@.subrange(from as int, to as int),
            forall|j: int| 0 <= j < i - from ==> is_digit(#[trigger] m[j]) || m[j] == '.',
            dot matches Some(d) ==> from <= d < i && m[d - from] == '.',
            dot is None ==> forall|j: int| 0 <= j < i - from ==> #[trigger] m[j] != '.',
            dot matches Some(d) ==> forall|j: int| 0 <= j < i - from && #[trigger] m[j] == '.' ==> j == d - from,
            digit_seen == exists|j: int| 0 <= j < i - from && is_digit(#[trigger] m[j]),
        decreases to - i,
    {
        let c = s[i];
        assert(c == m[i - from]);
        if '0' <= c && c <= '9' {
            digit_seen = true;
        } else if c == '.' {
            if dot.is_some() {
                return false;
            }
            dot = Some(i);
        } else {
            return false;
        }
        i = i + 1;
    }
    digit_seen
}

fn exponent_check(s: &Vec<char>, from: usize) -> (r: bool)
    requires
        from <= s@.len(),
    ensures
        r == exponent_ok(s@.skip(from as int)),
{
    let ghost x = s@.skip(from as int);
    let n = s.len();
    if from >= n {
        return false;
    }
    let mut i: usize = from;
    if s[from] == '+' || s[from] == '-' {
        i = from + 1;
        if i >= n {
            assert(!is_digit(x[0]));
            return false;
        }
    }
    let start = i;
    while i < n
        invariant
            from <= start <= i <= n == s@.len(),
            x == s@.skip(from as int),
            start == from || (start == from + 1 && is_sign(x[0])),
            start == from ==> !is_sign(x[0]),
            start < n,
            forall|j: int| start <= j < i ==> is_digit(#[trigger] s@[j]),
        decreases n - i,
    {
        if !('0' <= s[i] && s[i] <= '9') {
            proof {
                assert(!is_digit(x[i - from]));
                if start == from + 1 {
                    assert(x.skip(1)[i - from - 1] == x[i - from]);
                }
            }
            return false;
        }
        i = i + 1;
    }
    proof {
        if start == from {
            assert forall|j: int| 0 <= j < x.len() implies is_digit(#[trigger] x[j]) by {
                assert(x[j] == s@[from + j]);
            }
        } else {
            assert forall|j: int| 0 <= j < x.skip(1).len() implies is_digit(#[trigger] x.skip(1)[j]) by {
                assert(x.skip(1)[j] == s@[from + 1 + j]);
            }
        }
    }
    true
}

fn number_check(s: &Vec<char>, from: usize) -> (r: bool)
    requires
        from <= s@.len(),
    ensures
        r == number_ok(s@.skip(from as int)),
{
    let ghost b = s@.skip(from as int);
    let n = s.len();
    let mut k: usize = from;
    while k < n && !(s[k] == 'e' || s[k] == 'E')
        invariant
            from <= k <= n == s@.len(),
            b == s@.skip(from as int),
            forall|j: int| 0 <= j < k - from ==> !is_exp_mark(#[trigger] b[j]),
        decreases n - k,
    {
        assert(b[k - from] == s@[k as int]);
        k = k + 1;
    }
    if k == n {
        let r = mantissa_check(s, from, n);
        assert(s@.subrange(from as int, n as int) =~= b);
        return r;
    }
    let kk = k - from;
    assert(b[kk as int] == s@[k as int]);
    assert(is_exp_mark(b[kk as int]));
    let m = mantissa_check(s, from, k);
    assert(s@.subrange(from as int, k as int) =~= b.take(kk as int));
    let x = exponent_check(s, k + 1);
    assert(s@.skip(k + 1) =~= b.skip(kk + 1));
    proof {
        assert(!(is_digit(b[kk as int]) || b[kk as int] == '.'));
        assert(!mantissa_ok(b));
        assert forall|k2: int| 0 <= k2 < b.len() && #[trigger] is_exp_mark(b[k2]) && k2 != kk implies !mantissa_ok(b.take(k2)) by {
            if k2 > kk {
                assert(b.take(k2)[kk as int] == b[kk as int]);
                assert(!(is_digit(b.take(k2)[kk as int]) || b.take(k2)[kk as int] == '.'));
            }
        }
    }
    m && x
}

/// Whether std's `f64` parser accepts a text (see `float_text_ok`).
pub fn is_float_text(s: &str) -> (r: bool)
    ensures
        r == float_text_ok(s@),
{
    let cs = chars_of(s);
    let unsigned_here = unsigned_float_check(&cs, 0);
    assert(cs@.skip(0) =~= cs@);
    if unsigned_here {
        return true;
    }
    if cs.len() >= 1 && (cs[0] == '+' || cs[0] == '-') {
        unsigned_float_check(&cs, 1)
    } else {
        false
    }
}

fn unsigned_float_check(s: &Vec<char>, from: usize) -> (r: bool)
    requires
        from <= s@.len(),
    ensures
        r == unsigned_float_ok(s@.skip(from as int)),
{
    let inf = ['i', 'n', 'f'];
    let infinity = ['i', 'n', 'f', 'i', 'n', 'i', 't', 'y'];
    let nan = ['n', 'a', 'n'];
    let a = ci_word_at(s, from, &inf);
    let b = ci_word_at(s, from, &infinity);
    let c = ci_word_at(s, from, &nan);
    assert(inf@ == seq!['i', 'n', 'f']);
    assert(infinity@ == seq!['i', 'n', 'f', 'i', 'n', 'i', 't', 'y']);
    assert(nan@ == seq!['n', 'a', 'n']);
    if a || b || c {
        return true;
    }
    number_check(s, from)
}


/// The first check a ticket payload fails.
#[derive(Debug, Clone, Copy, PartialEq, Eq, Structural)]
pub enum TicketProblem {
    Name,
    Description,
    Quantity,
    MinPurchase,
    MaxPurchase,
    MinAboveMax,
    Price,
    MaxReleasePrice,
}

pub open spec fn is_empty_text(o: Option<String>) -> bool {
    match o {
        Some(s) => s@.len() == 0,
        None => false,
    }
}

pub open spec fn is_unparsable_price(o: Option<String>) -> bool {
    match o {
        Some(s) => !float_text_ok(s@),
        None => false,
    }
}

pub open spec fn min_above_max(a: Option<i32>, b: Option<i32>) -> bool {
    match (a, b) {
        (Some(x), Some(y)) => x > y,
        _ => false,
    }
}

/// The checks shared by new and changed tickets, in the order they are made.
pub open spec fn ticket_problem(
    name_bad: bool,
    description: Option<String>,
    quantity: Option<i32>,
    min: Option<i32>,
    max: Option<i32>,
    price: Option<String>,
    max_release_price: Option<String>,
) -> Option<TicketProblem> {
    if name_bad {
        Some(TicketProblem::Name)
    } else if is_empty_text(description) {
        Some(TicketProblem::Description)
    } else if quantity == Some(0i32) {
        Some(TicketProblem::Quantity)
    } else if min == Some(0i32) {
        Some(TicketProblem::MinPurchase)
    } else if max == Some(0i32) {
        Some(TicketProblem::MaxPurchase)
    } else if min_above_max(min, max) {
        Some(TicketProblem::MinAboveMax)
    } else if is_unparsable_price(price) {
        Some(TicketProblem::Price)
    } else if is_unparsable_price(max_release_price) {
        Some(TicketProblem::MaxReleasePrice)
    } else {
        None
    }
}

pub open spec fn ticket_problem_field(p: TicketProblem) -> Seq<char> {
    match p {
        TicketProblem::Name => "ticket_name"@,
        TicketProblem::Description => "ticket_description"@,
        TicketProblem::Quantity => "ticket_quantity_available"@,
        TicketProblem::MinPurchase => "ticket_min_purchase_quantity"@,
        TicketProblem::MaxPurchase => "ticket_max_purchase_quantity"@,
        TicketProblem::MinAboveMax => "ticket_min_max_purchase_quantity"@,
        TicketProblem::Price => "ticket_price"@,
        TicketProblem::MaxReleasePrice => "ticket_max_release_price"@,
    }
}

pub open spec fn ticket_problem_message(p: TicketProblem) -> Seq<char> {
    match p {
        TicketProblem::Name => "Ticket name does not cover length requirements (max 20 chars)"@,
        TicketProblem::Description => "Ticket description does not cover length requirements (should not be empty)"@,
        TicketProblem::Quantity => "Ticket quantity does not cover requirements (should not be zero)"@,
        TicketProblem::MinPurchase => "Ticket minimum purchase quantity does not cover requirements (should not be zero)"@,
        TicketProblem::MaxPurchase => "Ticket maximum purchase quantity does not cover requirements (should not be zero)"@,
        TicketProblem::MinAboveMax => "Ticket min. purchase quantity must be less than the maximum"@,
        TicketProblem::Price => "Ticket price is unparsable"@,
        TicketProblem::MaxReleasePrice => "Ticket max. release price is unparsable"@,
    }
}

/// The result a validation gives for the first problem found, if any.
pub open spec fn reports_ticket_problem(r: Result<(), GqlError>, p: Option<TicketProblem>) -> bool {
    match p {
        None => r == Ok::<(), GqlError>(()),
        Some(p) => r matches Err(GqlError::Validation(v)) && v.field@ == ticket_problem_field(p)
            && v.message@ == ticket_problem_message(p),
    }
}

fn ticket_problem_error(p: TicketProblem) -> (r: GqlError)
    ensures
        reports_ticket_problem(Err(r), Some(p)),
{
    let v = match p {
        TicketProblem::Name => ValidationError::new("ticket_name", "Ticket name does not cover length requirements (max 20 chars)"),
        TicketProblem::Description => ValidationError::new("ticket_description", "Ticket description does not cover length requirements (should not be empty)"),
        TicketProblem::Quantity => ValidationError::new("ticket_quantity_available", "Ticket quantity does not cover requirements (should not be zero)"),
        TicketProblem::MinPurchase => ValidationError::new("ticket_min_purchase_quantity", "Ticket minimum purchase quantity does not cover requirements (should not be zero)"),
        TicketProblem::MaxPurchase => ValidationError::new("ticket_max_purchase_quantity", "Ticket maximum purchase quantity does not cover requirements (should not be zero)"),
        TicketProblem::MinAboveMax => ValidationError::new("ticket_min_max_purchase_quantity", "Ticket min. purchase quantity must be less than the maximum"),
        TicketProblem::Price => ValidationError::new("ticket_price", "Ticket price is unparsable"),
        TicketProblem::MaxReleasePrice => ValidationError::new("ticket_max_release_price", "Ticket max. release price is unparsable"),
    };
    GqlError::Validation(v)
}

fn empty_text(o: &Option<String>) -> (r: bool)
    ensures
        r == is_empty_text(*o),
{
    match o {
        Some(s) => s.as_str().unicode_len() == 0,
        None => false,
    }
}

fn unparsable_price(o: &Option<String>) -> (r: bool)
    ensures
        r == is_unparsable_price(*o),
{
    match o {
        Some(s) => !is_float_text(s.as_str()),
        None => false,
    }
}

fn ticket_fields_check(
    name_bad: bool,
    description: &Option<String>,
    quantity: Option<i32>,
    min: Option<i32>,
    max: Option<i32>,
    price: &Option<String>,
    max_release_price: &Option<String>,
) -> (r: Result<(), GqlError>)
    ensures
        reports_ticket_problem(r, ticket_problem(name_bad, *description, quantity, min, max, *price, *max_release_price)),
{
    let p = if name_bad {
        Some(TicketProblem::Name)
    } else if empty_text(description) {
        Some(TicketProblem::Description)
    } else if quantity == Some(0i32) {
        Some(TicketProblem::Quantity)
    } else if min == Some(0i32) {
        Some(TicketProblem::MinPurchase)
    } else if max == Some(0i32) {
        Some(TicketProblem::MaxPurchase)
    } else if match (min, max) {
        (Some(x), Some(y)) => x > y,
        _ => false,
    } {
        Some(TicketProblem::MinAboveMax)
    } else if unparsable_price(price) {
        Some(TicketProblem::Price)
    } else if unparsable_price(max_release_price) {
        Some(TicketProblem::MaxReleasePrice)
    } else {
        None
    };
    match p {
        Some(p) => Err(ticket_problem_error(p)),
        None => Ok(()),
    }
}

/// Longest ticket name, in UTF-8 bytes.
pub const MAX_TICKET_NAME_LEN: usize = 20;

/// Checks a ticket creation request: a name of at most twenty bytes, a
/// non-empty description, non-zero quantities, a minimum purchase not above
/// the maximum, and prices that parse as numbers.
pub fn check_new_ticket_payload(new_ticket: &NewTicket) -> (r: Result<(), GqlError>)
    ensures
        reports_ticket_problem(r, ticket_problem(
            encode_utf8(new_ticket.ticket_name@).len() > MAX_TICKET_NAME_LEN,
            new_ticket.description,
            new_ticket.quantity_available,
            new_ticket.min_purchase_quantity,
            new_ticket.max_purchase_quantity,
            new_ticket.price,
            new_ticket.max_release_price,
        )),
{
    let name_bad = utf8_len_exceeds(new_ticket.ticket_name.as_str(), MAX_TICKET_NAME_LEN);
    ticket_fields_check(
        name_bad,
        &new_ticket.description,
        new_ticket.quantity_available,
        new_ticket.min_purchase_quantity,
        new_ticket.max_purchase_quantity,
        &new_ticket.price,
        &new_ticket.max_release_price,
    )
}

pub open spec fn bad_new_name(o: Option<String>) -> bool {
    match o {
        Some(s) => s@.len() == 0 || encode_utf8(s@).len() > MAX_TICKET_NAME_LEN,
        None => false,
    }
}

pub open spec fn or_keep<T>(new: Option<T>, old: Option<T>) -> Option<T> {
    if new is Some { new } else { old }
}

/// Checks a ticket change request as a creation request is checked (a given
/// name must also be non-empty) and, if it passes, applies the given fields;
/// a new name also renames the ticket's slug under its event's slug.
pub fn update_ticket_mutation_payload(update_ticket: UpdateTicket, db_event: &DbEvent, db_ticket: &mut DbTicket) -> (r: Result<(), GqlError>)
    ensures
        reports_ticket_problem(r, ticket_problem(
            bad_new_name(update_ticket.ticket_name),
            update_ticket.description,
            update_ticket.quantity_available,
            update_ticket.min_purchase_quantity,
            update_ticket.max_purchase_quantity,
            update_ticket.price,
            update_ticket.max_release_price,
        )),
        r is Err ==> *final(db_ticket) == *old(db_ticket),
        r is Ok ==> ({
            let o = *old(db_ticket);
            let t = *final(db_ticket);
            &&& t.id == o.id && t.created_at == o.created_at && t.event_id == o.event_id
            &&& (match update_ticket.ticket_name {
                Some(n) => t.ticket_name == n && t.ticket_slug@ == ticket_slug_of(db_event.event_slug@, n@),
                None => t.ticket_name == o.ticket_name && t.ticket_slug == o.ticket_slug,
            })
            &&& t.description == or_keep(update_ticket.description, o.description)
            &&& t.price == or_keep(update_ticket.price, o.price)
            &&& t.max_release_price == or_keep(update_ticket.max_release_price, o.max_release_price)
            &&& t.quantity_available == or_keep(update_ticket.quantity_available, o.quantity_available)
            &&& t.min_purchase_quantity == or_keep(update_ticket.min_purchase_quantity, o.min_purchase_quantity)
            &&& t.max_purchase_quantity == or_keep(update_ticket.max_purchase_quantity, o.max_purchase_quantity)
            &&& t.allow_transfers == or_keep(update_ticket.allow_transfers, o.allow_transfers)
        }),
{
    let name_bad = match &update_ticket.ticket_name {
        Some(n) => {
            n.as_str().unicode_len() == 0 || utf8_len_exceeds(n.as_str(), MAX_TICKET_NAME_LEN)
        },
        None => false,
    };
    match ticket_fields_check(
        name_bad,
        &update_ticket.description,
        update_ticket.quantity_available,
        update_ticket.min_purchase_quantity,
        update_ticket.max_purchase_quantity,
        &update_ticket.price,
        &update_ticket.max_release_price,
    ) {
        Err(e) => return Err(e),
        Ok(()) => {},
    }
    if let Some(name) = update_ticket.ticket_name {
        db_ticket.ticket_slug = ticket_slug(db_event.event_slug.as_str(), name.as_str());
        db_ticket.ticket_name = name;
    }
    if update_ticket.description.is_some() {
        db_ticket.description = update_ticket.description;
    }
    if update_ticket.price.is_some() {
        db_ticket.price = update_ticket.price;
    }
    if update_ticket.max_release_price.is_some() {
        db_ticket.max_release_price = update_ticket.max_release_price;
    }
    if update_ticket.quantity_available.is_some() {
        db_ticket.quantity_available = update_ticket.quantity_available;
    }
    if update_ticket.min_purchase_quantity.is_some() {
        db_ticket.min_purchase_quantity = update_ticket.min_purchase_quantity;
    }
    if update_ticket.max_purchase_quantity.is_some() {
        db_ticket.max_purchase_quantity = update_ticket.max_purchase_quantity;
    }
    if update_ticket.allow_transfers.is_some() {
        db_ticket.allow_transfers = update_ticket.allow_transfers;
    }
    Ok(())
}


/// The first check an event change request fails.
#[derive(Debug, Clone, Copy, PartialEq, Eq, Structural)]
pub enum EventProblem {
    Name,
    StartBeforeCreation,
    EndBeforeCreation,
    EntryBeforeCreation,
    EndNotAfterStart,
    EndNotAfterEntry,
    EntryNotAfterStart,
    Description,
    VenueName,
    VenueLocation,
    CoverPhoto,
    Thumbnail,
}

/// Longest event name and description, in UTF-8 bytes.
pub const MAX_EVENT_TEXT_LEN: usize = 20;

pub open spec fn before(d: Option<i64>, t: i64) -> bool {
    match d {
        Some(x) => x < t,
        None => false,
    }
}

pub open spec fn both_and(a: Option<i64>, b: Option<i64>, strict_after: bool) -> bool {
    match (a, b) {
        (Some(x), Some(y)) => if strict_after { x >= y } else { x <= y },
        _ => false,
    }
}

pub open spec fn bad_event_text(o: Option<String>) -> bool {
    match o {
        Some(s) => s@.len() == 0 || encode_utf8(s@).len() > MAX_EVENT_TEXT_LEN,
        None => false,
    }
}

/// The checks on an event change, in the order they are made; the date
/// order is checked on the dates the event would have after the change.
pub open spec fn event_problem(u: UpdateEvent, e: DbEvent) -> Option<EventProblem> {
    let start = or_keep(u.start_date, e.start_date);
    let end = or_keep(u.end_date, e.end_date);
    let entry = or_keep(u.entry_time, e.entry_time);
    if bad_event_text(u.event_name) {
        Some(EventProblem::Name)
    } else if before(u.start_date, e.created_at) {
        Some(EventProblem::StartBeforeCreation)
    } else if before(u.end_date, e.created_at) {
        Some(EventProblem::EndBeforeCreation)
    } else if before(u.entry_time, e.created_at) {
        Some(EventProblem::EntryBeforeCreation)
    } else if both_and(start, end, true) {
        Some(EventProblem::EndNotAfterStart)
    } else if both_and(entry, end, true) {
        Some(EventProblem::EndNotAfterEntry)
    } else if both_and(entry, start, false) {
        Some(EventProblem::EntryNotAfterStart)
    } else if bad_event_text(u.description) {
        Some(EventProblem::Description)
    } else if is_empty_text(u.venue_name) {
        Some(EventProblem::VenueName)
    } else if is_empty_text(u.venue_location) {
        Some(EventProblem::VenueLocation)
    } else if is_empty_text(u.cover_photo_base64) {
        Some(EventProblem::CoverPhoto)
    } else if is_empty_text(u.thumbnail_base64) {
        Some(EventProblem::Thumbnail)
    } else {
        None
    }
}

pub open spec fn event_problem_field(p: EventProblem) -> Seq<char> {
    match p {
        EventProblem::Name => "event_name"@,
        EventProblem::StartBeforeCreation => "event_start_date"@,
        EventProblem::EndBeforeCreation => "event_end_date"@,
        EventProblem::EntryBeforeCreation => "event_entry_date"@,
        EventProblem::EndNotAfterStart => "event_start_end_date"@,
        EventProblem::EndNotAfterEntry => "event_end_entrytime_date"@,
        EventProblem::EntryNotAfterStart => "event_start_entrytime_date"@,
        EventProblem::Description => "event_description"@,
        EventProblem::VenueName => "event_venue_name"@,
        EventProblem::VenueLocation => "event_venue_location"@,
        EventProblem::CoverPhoto => "event_cover_photo"@,
        EventProblem::Thumbnail => "event_thumbnail"@,
    }
}

pub open spec fn event_problem_message(p: EventProblem) -> Seq<char> {
    match p {
        EventProblem::Name => "Event name does not cover length requirements (max 20 chars)"@,
        EventProblem::StartBeforeCreation => "Event start date lies behind the event creation date"@,
        EventProblem::EndBeforeCreation => "Event end date lies behind the event creation date"@,
        EventProblem::EntryBeforeCreation => "Event entry date lies behind the event creation date"@,
        EventProblem::EndNotAfterStart => "Event end date must be after the event start date"@,
        EventProblem::EndNotAfterEntry => "Event end date must be after the event entry time"@,
        EventProblem::EntryNotAfterStart => "Event start date must be before the event entry time"@,
        EventProblem::Description => "Event description does not cover length requirements (max 20 chars)"@,
        EventProblem::VenueName => "Event venue_name does not cover length requirements (should not be empty)"@,
        EventProblem::VenueLocation => "Event venue_location does not cover length requirements (should not be empty)"@,
        EventProblem::CoverPhoto => "Cover photo does not cover length requirements (should not be empty)"@,
        EventProblem::Thumbnail => "Event thumbnail url does not cover length requirements (should not be empty)"@,
    }
}

pub open spec fn reports_event_problem(r: Result<(), GqlError>, p: Option<EventProblem>) -> bool {
    match p {
        None => r == Ok::<(), GqlError>(()),
        Some(p) => r matches Err(GqlError::Validation(v)) && v.field@ == event_problem_field(p)
            && v.message@ == event_problem_message(p),
    }
}

fn event_problem_error(p: EventProblem) -> (r: GqlError)
    ensures
        reports_event_problem(Err(r), Some(p)),
{
    let v = match p {
        EventProblem::Name => ValidationError::new("event_name", "Event name does not cover length requirements (max 20 chars)"),
        EventProblem::StartBeforeCreation => ValidationError::new("event_start_date", "Event start date lies behind the event creation date"),
        EventProblem::EndBeforeCreation => ValidationError::new("event_end_date", "Event end date lies behind the event creation date"),
        EventProblem::EntryBeforeCreation => ValidationError::new("event_entry_date", "Event entry date lies behind the event creation date"),
        EventProblem::EndNotAfterStart => ValidationError::new("event_start_end_date", "Event end date must be after the event start date"),
        EventProblem::EndNotAfterEntry => ValidationError::new("event_end_entrytime_date", "Event end date must be after the event entry time"),
        EventProblem::EntryNotAfterStart => ValidationError::new("event_start_entrytime_date", "Event start date must be before the event entry time"),
        EventProblem::Description => ValidationError::new("event_description", "Event description does not cover length requirements (max 20 chars)"),
        EventProblem::VenueName => ValidationError::new("event_venue_name", "Event venue_name does not cover length requirements (should not be empty)"),
        EventProblem::VenueLocation => ValidationError::new("event_venue_location", "Event venue_location does not cover length requirements (should not be empty)"),
        EventProblem::CoverPhoto => ValidationError::new("event_cover_photo", "Cover photo does not cover length requirements (should not be empty)"),
        EventProblem::Thumbnail => ValidationError::new("event_thumbnail", "Event thumbnail url does not cover length requirements (should not be empty)"),
    };
    GqlError::Validation(v)
}

fn event_text_bad(o: &Option<String>) -> (r: bool)
    ensures
        r == bad_event_text(*o),
{
    match o {
        Some(s) => {
            s.as_str().unicode_len() == 0 || utf8_len_exceeds(s.as_str(), MAX_EVENT_TEXT_LEN)
        },
        None => false,
    }
}

fn date_before(d: Option<i64>, t: i64) -> (r: bool)
    ensures
        r == before(d, t),
{
    match d {
        Some(x) => x < t,
        None => false,
    }
}

fn dates_out_of_order(a: Option<i64>, b: Option<i64>, strict_after: bool) -> (r: bool)
    ensures
        r == both_and(a, b, strict_after),
{
    match (a, b) {
        (Some(x), Some(y)) => if strict_after { x >= y } else { x <= y },
        _ => false,
    }
}

fn keep_or(new: Option<i64>, old: Option<i64>) -> (r: Option<i64>)
    ensures
        r == or_keep(new, old),
{
    if new.is_some() { new } else { old }
}

fn find_event_problem(u: &UpdateEvent, e: &DbEvent) -> (r: Option<EventProblem>)
    ensures
        r == event_problem(*u, *e),
{
    let start = keep_or(u.start_date, e.start_date);
    let end = keep_or(u.end_date, e.end_date);
    let entry = keep_or(u.entry_time, e.entry_time);
    if event_text_bad(&u.event_name) {
        Some(EventProblem::Name)
    } else if date_before(u.start_date, e.created_at) {
        Some(EventProblem::StartBeforeCreation)
    } else if date_before(u.end_date, e.created_at) {
        Some(EventProblem::EndBeforeCreation)
    } else if date_before(u.entry_time, e.created_at) {
        Some(EventProblem::EntryBeforeCreation)
    } else if dates_out_of_order(start, end, true) {
        Some(EventProblem::EndNotAfterStart)
    } else if dates_out_of_order(entry, end, true) {
        Some(EventProblem::EndNotAfterEntry)
    } else if dates_out_of_order(entry, start, false) {
        Some(EventProblem::EntryNotAfterStart)
    } else if event_text_bad(&u.description) {
        Some(EventProblem::Description)
    } else if empty_text(&u.venue_name) {
        Some(EventProblem::VenueName)
    } else if empty_text(&u.venue_location) {
        Some(EventProblem::VenueLocation)
    } else if empty_text(&u.cover_photo_base64) {
        Some(EventProblem::CoverPhoto)
    } else if empty_text(&u.thumbnail_base64) {
        Some(EventProblem::Thumbnail)
    } else {
        None
    }
}

/// Checks an event change request against the stored event and, if it
/// passes, applies the given fields; a new name also renames the slug.
pub fn update_event_mutation_payload(update_event: UpdateEvent, db_event: &mut DbEvent) -> (r: Result<(), GqlError>)
    ensures
        reports_event_problem(r, event_problem(update_event, *old(db_event))),
        r is Err ==> *final(db_event) == *old(db_event),
        r is Ok ==> ({
            let o = *old(db_event);
            let e = *final(db_event);
            let u = update_event;
            &&& e.id == o.id && e.created_at == o.created_at && e.created_by_user == o.created_by_user
            &&& e.event_status == o.event_status
            &&& e.cover_photo_url == o.cover_photo_url && e.thumbnail_url == o.thumbnail_url
            &&& (match u.event_name {
                Some(n) => e.event_name == n && e.event_slug@ == slug_of(n@),
                None => e.event_name == o.event_name && e.event_slug == o.event_slug,
            })
            &&& e.start_date == or_keep(u.start_date, o.start_date)
            &&& e.end_date == or_keep(u.end_date, o.end_date)
            &&& e.entry_time == or_keep(u.entry_time, o.entry_time)
            &&& e.description == or_keep(u.description, o.description)
            &&& e.is_virtual == or_keep(u.is_virtual, o.is_virtual)
            &&& e.is_featured == or_keep(u.is_featured, o.is_featured)
            &&& e.venue_name == or_keep(u.venue_name, o.venue_name)
            &&& e.venue_location == or_keep(u.venue_location, o.venue_location)
        }),
{
    match find_event_problem(&update_event, db_event) {
        Some(p) => return Err(event_problem_error(p)),
        None => {},
    }
    if let Some(name) = update_event.event_name {
        db_event.event_slug = slug(name.as_str());
        db_event.event_name = name;
    }
    if update_event.start_date.is_some() {
        db_event.start_date = update_event.start_date;
    }
    if update_event.end_date.is_some() {
        db_event.end_date = update_event.end_date;
    }
    if update_event.entry_time.is_some() {
        db_event.entry_time = update_event.entry_time;
    }
    if update_event.description.is_some() {
        db_event.description = update_event.description;
    }
    if update_event.is_virtual.is_some() {
        db_event.is_virtual = update_event.is_virtual;
    }
    if update_event.is_featured.is_some() {
        db_event.is_featured = update_event.is_featured;
    }
    if update_event.venue_name.is_some() {
        db_event.venue_name = update_event.venue_name;
    }
    if update_event.venue_location.is_some() {
        db_event.venue_location = update_event.venue_location;
    }
    Ok(())
}


/// What a caller wants to do with an event.
#[derive(Debug, Clone, Copy, PartialEq, Eq, Structural)]
pub enum EventAction {
    Edit,
    Delete,
    Mint,
    AddTickets,
    EditTickets,
    DeleteTickets,
}

/// Why an event action is refused.
#[derive(Debug, Clone, Copy, PartialEq, Eq, Structural)]
pub enum AccessProblem {
    NotSeller,
    WrongStatus,
    NotCreator,
}

/// Whether an event in `status` allows the action: minting from a draft or
/// while minting, everything else only on drafts.
pub open spec fn status_allows(action: EventAction, status: EventStatus) -> bool {
    match action {
        EventAction::Mint => status == EventStatus::Draft || status == EventStatus::Minting,
        _ => status == EventStatus::Draft,
    }
}

/// The first rule an event action breaks. Minting is for sellers only;
/// adding tickets checks the creator before the status, the other actions
/// the status before the creator.
pub open spec fn access_problem(action: EventAction, caller: u128, caller_role: Role, status: EventStatus, creator: u128) -> Option<AccessProblem> {
    if action == EventAction::Mint && caller_role != Role::Seller {
        Some(AccessProblem::NotSeller)
    } else if action == EventAction::AddTickets && caller != creator {
        Some(AccessProblem::NotCreator)
    } else if !status_allows(action, status) {
        Some(AccessProblem::WrongStatus)
    } else if caller != creator {
        Some(AccessProblem::NotCreator)
    } else {
        None
    }
}

pub open spec fn access_field(p: AccessProblem) -> Seq<char> {
    match p {
        AccessProblem::NotSeller => "user_role"@,
        AccessProblem::WrongStatus => "event_status"@,
        AccessProblem::NotCreator => "event_creator"@,
    }
}

pub open spec fn access_message(action: EventAction, p: AccessProblem) -> Seq<char> {
    match p {
        AccessProblem::NotSeller => "User role is not seller. Minting is only allowed for sellers"@,
        AccessProblem::NotCreator => "Event creator and calling user are not the same"@,
        AccessProblem::WrongStatus => match action {
            EventAction::Mint => "Minting could only be applied to events with status DRAFT or MINTING"@,
            EventAction::AddTickets => "Tickets could only be added to an event with status DRAFT"@,
            EventAction::EditTickets => "Tickets could only be edited for an event with status DRAFT"@,
            EventAction::DeleteTickets => "Tickets could only be deleted for an event with status DRAFT"@,
            _ => "Only event with status DRAFT could be edited"@,
        },
    }
}

/// Decides whether `caller` may perform `action` on an event created by
/// `creator` that is in `status`.
pub fn check_event_access(action: EventAction, caller: u128, caller_role: Role, status: EventStatus, creator: u128) -> (r: Result<(), GqlError>)
    ensures
        (match access_problem(action, caller, caller_role, status, creator) {
            None => r == Ok::<(), GqlError>(()),
            Some(p) => r matches Err(GqlError::Validation(v)) && v.field@ == access_field(p)
                && v.message@ == access_message(action, p),
        }),
{
    let allowed = match action {
        EventAction::Mint => status == EventStatus::Draft || status == EventStatus::Minting,
        _ => status == EventStatus::Draft,
    };
    let problem = if action == EventAction::Mint && caller_role != Role::Seller {
        Some(AccessProblem::NotSeller)
    } else if action == EventAction::AddTickets && caller != creator {
        Some(AccessProblem::NotCreator)
    } else if !allowed {
        Some(AccessProblem::WrongStatus)
    } else if caller != creator {
        Some(AccessProblem::NotCreator)
    } else {
        None
    };
    let v = match problem {
        None => return Ok(()),
        Some(AccessProblem::NotSeller) => ValidationError::new("user_role", "User role is not seller. Minting is only allowed for sellers"),
        Some(AccessProblem::NotCreator) => ValidationError::new("event_creator", "Event creator and calling user are not the same"),
        Some(AccessProblem::WrongStatus) => match action {
            EventAction::Mint => ValidationError::new("event_status", "Minting could only be applied to events with status DRAFT or MINTING"),
            EventAction::AddTickets => ValidationError::new("event_status", "Tickets could only be added to an event with status DRAFT"),
            EventAction::EditTickets => ValidationError::new("event_status", "Tickets could only be edited for an event with status DRAFT"),
            EventAction::DeleteTickets => ValidationError::new("event_status", "Tickets could only be deleted for an event with status DRAFT"),
            _ => ValidationError::new("event_status", "Only event with status DRAFT could be edited"),
        },
    };
    Err(GqlError::Validation(v))
}

/// The status of an event once its tickets are being minted: a draft moves
/// to minting; other statuses stay.
pub fn status_after_mint(status: EventStatus) -> (r: EventStatus)
    ensures
        r == (if status == EventStatus::Draft { EventStatus::Minting } else { status }),
{
    if status == EventStatus::Draft { EventStatus::Minting } else { status }
}

} // verus!
