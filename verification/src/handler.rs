//! What one request does: it makes up the next event from the store's length and
//! the time, appends it, and hands out the whole calendar.

use crate::event::{Confidentiality, Event, EventView, Status};
use crate::instant::{check_instant, is_instant, now_utc, plus_hours, plus_minutes, MAX_INSTANT};
use crate::ordinal::{lemma_summary_is_ascii, summary_for, summary_text};
use crate::response::{calendar_headers, respond, Response};
use crate::store::{CalendarStore, CalendarView};
use vstd::prelude::*;

verus! {

/// The event with ordinal `n`, made up at the instant `now`: it starts `n` hours
/// from now and lasts ten minutes and `n` more.
pub open spec fn synthesized(n: nat, now: int) -> EventView {
    EventView {
        summary: summary_text(n),
        description: "here I have something really important to do"@,
        start: now + 3600 * n,
        end: now + 3600 * n + 60 * (10 + n),
        confidentiality: Confidentiality::Confidential,
        status: Status::Confirmed,
        sequence_number: 1,
    }
}

/// Whether the event with ordinal `n` can be made up at `now`: `now` is an
/// instant, and so is the end of the event.
pub open spec fn schedulable(n: nat, now: int) -> bool {
    is_instant(now) && is_instant(synthesized(n, now).end)
}

/// The store after one request, handled at the instant `now`.
pub open spec fn after_request(store: CalendarView, now: int) -> CalendarView {
    store.append(synthesized(store.events.len() + 1, now))
}

/// Tells whether the event with ordinal `n` can be made up at `now`.
pub fn is_schedulable(n: u64, now: i64) -> (ok: bool)
    ensures
        ok == schedulable(n as nat, now as int),
{
    if !check_instant(now) {
        return false;
    }
    let room: i64 = MAX_INSTANT - now;
    if room < 600 {
        return false;
    }
    let most: i64 = (room - 600) / 3660;
    n <= most as u64
}

/// The event that a request makes up is valid wherever it can be made up.
pub proof fn lemma_synthesized_is_valid(n: nat, now: int)
    requires
        schedulable(n, now),
    ensures
        synthesized(n, now).valid(),
{
    lemma_summary_is_ascii(n);
    reveal_strlit("here I have something really important to do");
}

/// Makes up the event with ordinal `n` at the instant `now`.
pub fn synthesize_event(n: u64, now: i64) -> (event: Event)
    requires
        schedulable(n as nat, now as int),
    ensures
        event@ == synthesized(n as nat, now as int),
        event@.start == now + 3600 * n,
        event@.end - event@.start == 60 * (10 + n),
{
    let ordinal: i64 = n as i64;
    let start: i64 = plus_hours(now, ordinal);
    let end: i64 = plus_minutes(start, 10 + ordinal);
    proof {
        lemma_synthesized_is_valid(n as nat, now as int);
    }
    let made = Event::new(
        summary_for(n),
        String::from_str("here I have something really important to do"),
        start,
        end,
        Confidentiality::Confidential,
        Status::Confirmed,
        1,
    );
    made.unwrap()
}

/// Handles one request at the instant `now`: appends the next event to the store
/// and then answers with the whole calendar, the new event in it. The request
/// has the store to itself from the moment it reads the length until the
/// calendar is written, so the ordinal that it reads is the one that its event
/// gets.
pub fn handle_request_at(store: &mut CalendarStore, now: i64) -> (response: Response)
    requires
        schedulable(old(store)@.events.len() + 1, now as int),
    ensures
        final(store)@ == after_request(old(store)@, now as int),
        old(store)@.events.is_prefix_of(final(store)@.events),
        final(store)@.valid(),
        response@.status == 200,
        response@.headers == calendar_headers(),
        final(store)@.written_as(response@.body),
{
    let n: u64 = store.length() as u64 + 1;
    let event = synthesize_event(n, now);
    store.append(event);
    respond(store.serialize())
}

/// Handles one request at the instant `now`, if the next event can be made up
/// then: else there is no answer, and the store stays as it was.
pub fn handle_request_on(store: &mut CalendarStore, now: i64) -> (outcome: Option<Response>)
    ensures
        outcome is Some <==> schedulable(old(store)@.events.len() + 1, now as int),
        outcome matches Some(response) ==> {
            &&& final(store)@ == after_request(old(store)@, now as int)
            &&& final(store)@.valid()
            &&& response@.status == 200
            &&& response@.headers == calendar_headers()
            &&& final(store)@.written_as(response@.body)
        },
        outcome is None ==> *final(store) == *old(store),
{
    let len: usize = store.length();
    if len as u64 == u64::MAX || !is_schedulable(len as u64 + 1, now) {
        None
    } else {
        Some(handle_request_at(store, now))
    }
}

/// Handles one request at the time that the clock shows: what `handle_request_on`
/// does at that instant. The clock is read by `chrono`, which panics where the
/// system clock stands before 1970.
pub fn handle_request(store: &mut CalendarStore) -> (outcome: Option<Response>)
    ensures
        exists|now: int|
            {
                &&& is_instant(now)
                &&& outcome is Some <==> #[trigger] schedulable(old(store)@.events.len() + 1, now)
                &&& outcome matches Some(response) ==> {
                    &&& final(store)@ == after_request(old(store)@, now)
                    &&& final(store)@.valid()
                    &&& response@.status == 200
                    &&& response@.headers == calendar_headers()
                    &&& final(store)@.written_as(response@.body)
                }
            },
        outcome is None ==> *final(store) == *old(store),
{
    let now: i64 = now_utc();
    handle_request_on(store, now)
}

} // verus!
