//! Runs of requests: what a store holds after it has handled several, one after
//! the other.

use crate::document::{
    class_text, count_of, holds_lines, is_escaped, lines_with, lists_calendar, status_text,
    written_as_is,
};
use crate::event::{Confidentiality, EventView, Status};
use crate::handler::{after_request, synthesized};
use crate::ordinal::{
    decimal, lemma_decimal_of_u64, lemma_summary_injective, lemma_summary_is_ascii,
    lemma_summary_ordinal, summary_ordinal, summary_text,
};
use crate::store::CalendarView;
use vstd::prelude::*;

verus! {

/// The store after a run of requests, handled one after the other, the i-th of
/// them at the instant `times[i]`.
pub open spec fn after_requests(store: CalendarView, times: Seq<int>) -> CalendarView
    decreases times.len(),
{
    if times.len() == 0 {
        store
    } else {
        after_request(after_requests(store, times.drop_last()), times.last())
    }
}

/// A run of requests leaves the name, the refresh hint and every event that was
/// there as they were, and adds one event for each request, in the order of the
/// requests, numbered on from the events that were there.
pub proof fn lemma_requests_append(store: CalendarView, times: Seq<int>)
    ensures
        after_requests(store, times).name == store.name,
        after_requests(store, times).refresh_minutes == store.refresh_minutes,
        after_requests(store, times).events.len() == store.events.len() + times.len(),
        forall|i: int|
            0 <= i < store.events.len() ==> after_requests(store, times).events[i]
                == #[trigger] store.events[i],
        forall|i: int|
            0 <= i < times.len() ==> after_requests(store, times).events[store.events.len() + i]
                == synthesized((store.events.len() + i + 1) as nat, #[trigger] times[i]),
    decreases times.len(),
{
    if times.len() > 0 {
        lemma_requests_append(store, times.drop_last());
        assert forall|i: int| 0 <= i < times.len() implies after_requests(
            store,
            times,
        ).events[store.events.len() + i] == synthesized(
            (store.events.len() + i + 1) as nat,
            #[trigger] times[i],
        ) by {
            if i < times.len() - 1 {
                assert(times.drop_last()[i] == times[i]);
            }
        }
    }
}

/// After N requests, in whatever order they took their turns, a store that was
/// created empty holds exactly N events, and the event at each place names the
/// ordinal of that place, counted from one: the ordinals are 1 to N, none is left
/// out and none comes twice.
pub proof fn lemma_requests_are_numbered(name: Seq<char>, refresh_minutes: nat, times: Seq<int>)
    ensures
        after_requests(CalendarView::created(name, refresh_minutes), times).events.len()
            == times.len(),
        forall|i: int|
            0 <= i < times.len() ==> after_requests(
                CalendarView::created(name, refresh_minutes),
                times,
            ).events[i] == synthesized((i + 1) as nat, #[trigger] times[i]),
        forall|i: int|
            0 <= i < times.len() ==> summary_ordinal(
                (#[trigger] after_requests(
                    CalendarView::created(name, refresh_minutes),
                    times,
                ).events[i]).summary,
            ) == i + 1,
        forall|i: int, j: int|
            0 <= i < j < times.len() ==> (#[trigger] after_requests(
                CalendarView::created(name, refresh_minutes),
                times,
            ).events[i]).summary != (#[trigger] after_requests(
                CalendarView::created(name, refresh_minutes),
                times,
            ).events[j]).summary,
{
    let fresh = CalendarView::created(name, refresh_minutes);
    let store = after_requests(fresh, times);
    lemma_requests_append(fresh, times);
    assert forall|i: int| 0 <= i < times.len() implies summary_ordinal(
        (#[trigger] store.events[i]).summary,
    ) == i + 1 by {
        assert(store.events[i] == synthesized((i + 1) as nat, times[i]));
        lemma_summary_ordinal((i + 1) as nat);
    }
    assert forall|i: int, j: int| 0 <= i < j < times.len() implies (#[trigger] store.events[i]).summary
        != (#[trigger] store.events[j]).summary by {
        lemma_summary_injective((i + 1) as nat, (j + 1) as nat);
    }
}

/// Every event that a request has appended lasts ten minutes and one more for
/// each unit of its ordinal, so it ends after it starts.
pub proof fn lemma_event_lasts_ten_minutes_and_ordinal(
    name: Seq<char>,
    refresh_minutes: nat,
    times: Seq<int>,
    place: int,
)
    requires
        0 <= place < times.len(),
    ensures
        ({
            let event = after_requests(CalendarView::created(name, refresh_minutes), times).events[place];
            &&& event.end - event.start == 60 * (10 + (place + 1))
            &&& event.end > event.start
        }),
{
    lemma_requests_are_numbered(name, refresh_minutes, times);
    let event = after_requests(CalendarView::created(name, refresh_minutes), times).events[place];
    assert(event == synthesized((place + 1) as nat, times[place]));
}

/// Every event that a request has appended starts as many hours after the
/// instant at which its request was handled as its ordinal says.
pub proof fn lemma_event_starts_ordinal_hours_later(
    name: Seq<char>,
    refresh_minutes: nat,
    times: Seq<int>,
    place: int,
)
    requires
        0 <= place < times.len(),
    ensures
        ({
            let event = after_requests(CalendarView::created(name, refresh_minutes), times).events[place];
            event.start == times[place] + 3600 * (place + 1)
        }),
{
    lemma_requests_are_numbered(name, refresh_minutes, times);
    let event = after_requests(CalendarView::created(name, refresh_minutes), times).events[place];
    assert(event == synthesized((place + 1) as nat, times[place]));
}

/// A request is not idempotent. Handled a second time, even at the same instant,
/// it does not find its first event again: it adds a second one, which differs
/// from the first in its summary and in its start.
pub proof fn lemma_request_is_not_idempotent(store: CalendarView, first: int, second: int)
    ensures
        ({
            let once = after_request(store, first);
            let twice = after_request(once, second);
            let len = store.events.len() as int;
            &&& twice != once
            &&& twice.events.len() == len + 2
            &&& twice.events[len] == once.events[len]
            &&& twice.events[len + 1] != twice.events[len]
            &&& twice.events[len + 1].summary != twice.events[len].summary
            &&& first == second ==> twice.events[len + 1].start != twice.events[len].start
        }),
{
    let len = store.events.len();
    lemma_summary_injective(len + 1, len + 2);
}

/// The summary of a request's event is written into a document as it stands.
pub proof fn lemma_summary_is_written_as_is(n: nat)
    requires
        n <= u64::MAX,
    ensures
        written_as_is("SUMMARY:"@, summary_text(n)),
{
    reveal_strlit("SUMMARY:");
    lemma_summary_is_ascii(n);
    lemma_decimal_of_u64(n);
    assert forall|i: int| 0 <= i < summary_text(n).len() implies !is_escaped(
        #[trigger] summary_text(n)[i],
    ) by {
        let c = summary_text(n)[i];
        assert(c == ' ' || ('0' <= c <= '9') || ('a' <= c <= 'z'));
    }
}

/// The lines that a document has for the fixed fields of a request's event.
pub proof fn lemma_fixed_fields_are_written_as_is()
    ensures
        written_as_is("CLASS:"@, class_text(Confidentiality::Confidential)),
        written_as_is("STATUS:"@, status_text(Status::Confirmed)),
        written_as_is("SEQUENCE:"@, decimal(1)),
        "CLASS:"@ + class_text(Confidentiality::Confidential) == "CLASS:CONFIDENTIAL"@,
        "STATUS:"@ + status_text(Status::Confirmed) == "STATUS:CONFIRMED"@,
        "SEQUENCE:"@ + decimal(1) == "SEQUENCE:1"@,
{
    reveal_strlit("CLASS:");
    reveal_strlit("CONFIDENTIAL");
    reveal_strlit("CLASS:CONFIDENTIAL");
    reveal_strlit("STATUS:");
    reveal_strlit("CONFIRMED");
    reveal_strlit("STATUS:CONFIRMED");
    reveal_strlit("SEQUENCE:");
    reveal_strlit("SEQUENCE:1");
    assert("CLASS:"@ + "CONFIDENTIAL"@ =~= "CLASS:CONFIDENTIAL"@);
    assert("STATUS:"@ + "CONFIRMED"@ =~= "STATUS:CONFIRMED"@);
    assert("SEQUENCE:"@ + decimal(1) =~= "SEQUENCE:1"@);
}

/// A document of a store that was created empty and has handled N requests holds
/// exactly N event blocks. Its summary lines are those of the ordinals 1 to N, in
/// this order, and each block is classed confidential, confirmed and in its
/// first revision. So the document of the first request holds the one summary
/// `test event 1`, and that of the third the summaries of 1, 2 and 3.
pub proof fn lemma_document_lists_requests(
    name: Seq<char>,
    refresh_minutes: nat,
    times: Seq<int>,
    text: Seq<char>,
)
    requires
        !name.contains('\n'),
        times.len() <= u64::MAX,
        after_requests(CalendarView::created(name, refresh_minutes), times).written_as(text),
    ensures
        count_of(text, "BEGIN:VEVENT"@) == times.len(),
        count_of(text, "END:VEVENT"@) == times.len(),
        lines_with(text, "SUMMARY:"@) == Seq::new(
            times.len(),
            |i: int| "SUMMARY:"@ + summary_text((i + 1) as nat),
        ),
        lines_with(text, "CLASS:"@) == Seq::new(times.len(), |i: int| "CLASS:CONFIDENTIAL"@),
        lines_with(text, "STATUS:"@) == Seq::new(times.len(), |i: int| "STATUS:CONFIRMED"@),
        lines_with(text, "SEQUENCE:"@) == Seq::new(times.len(), |i: int| "SEQUENCE:1"@),
{
    let store = after_requests(CalendarView::created(name, refresh_minutes), times);
    let events = store.events;
    lemma_requests_are_numbered(name, refresh_minutes, times);
    lemma_fixed_fields_are_written_as_is();
    assert(lists_calendar(text, store.name, store.refresh_minutes, events)) by {
        lemma_requests_append(CalendarView::created(name, refresh_minutes), times);
    }
    let summaries = events.map_values(|event: EventView| event.summary);
    let classes = events.map_values(|event: EventView| class_text(event.confidentiality));
    let states = events.map_values(|event: EventView| status_text(event.status));
    let revisions = events.map_values(|event: EventView| decimal(event.sequence_number));
    assert(holds_lines(text, "SUMMARY:"@, summaries));
    assert(holds_lines(text, "CLASS:"@, classes));
    assert(holds_lines(text, "STATUS:"@, states));
    assert(holds_lines(text, "SEQUENCE:"@, revisions));
    assert forall|i: int| 0 <= i < times.len() implies #[trigger] lines_with(text, "SUMMARY:"@)[i]
        == "SUMMARY:"@ + summary_text((i + 1) as nat) by {
        assert(events[i] == synthesized((i + 1) as nat, times[i]));
        lemma_summary_is_written_as_is((i + 1) as nat);
        assert(summaries[i] == summary_text((i + 1) as nat));
    }
    assert forall|i: int| 0 <= i < times.len() implies #[trigger] lines_with(text, "CLASS:"@)[i]
        == "CLASS:CONFIDENTIAL"@ by {
        assert(events[i] == synthesized((i + 1) as nat, times[i]));
        assert(classes[i] == class_text(Confidentiality::Confidential));
    }
    assert forall|i: int| 0 <= i < times.len() implies #[trigger] lines_with(text, "STATUS:"@)[i]
        == "STATUS:CONFIRMED"@ by {
        assert(events[i] == synthesized((i + 1) as nat, times[i]));
        assert(states[i] == status_text(Status::Confirmed));
    }
    assert forall|i: int| 0 <= i < times.len() implies #[trigger] lines_with(text, "SEQUENCE:"@)[i]
        == "SEQUENCE:1"@ by {
        assert(events[i] == synthesized((i + 1) as nat, times[i]));
        assert(revisions[i] == decimal(1));
    }
    assert(lines_with(text, "SUMMARY:"@) =~= Seq::new(
        times.len(),
        |i: int| "SUMMARY:"@ + summary_text((i + 1) as nat),
    ));
    assert(lines_with(text, "CLASS:"@) =~= Seq::new(times.len(), |i: int| "CLASS:CONFIDENTIAL"@));
    assert(lines_with(text, "STATUS:"@) =~= Seq::new(times.len(), |i: int| "STATUS:CONFIRMED"@));
    assert(lines_with(text, "SEQUENCE:"@) =~= Seq::new(times.len(), |i: int| "SEQUENCE:1"@));
}

/// The answer to a second request is not the answer to the first: its document
/// holds one event block more, whatever the instants of the two requests.
pub proof fn lemma_second_document_differs(
    store: CalendarView,
    first: int,
    second: int,
    once: Seq<char>,
    twice: Seq<char>,
)
    requires
        !store.name.contains('\n'),
        after_request(store, first).written_as(once),
        after_request(after_request(store, first), second).written_as(twice),
    ensures
        count_of(once, "BEGIN:VEVENT"@) == store.events.len() + 1,
        count_of(twice, "BEGIN:VEVENT"@) == store.events.len() + 2,
        once != twice,
{
}

} // verus!
