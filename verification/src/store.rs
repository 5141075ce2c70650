//! The shared calendar: a name, a refresh hint and the events appended so far,
//! kept in an `icalendar::Calendar`.

use crate::document::{is_calendar_document, lists_calendar};
use crate::event::{Confidentiality, Event, EventView, Status};
use crate::instant::is_instant;
use chrono::{DateTime, Duration, Utc};
use icalendar::{Calendar, CalendarComponent, Class, Component, EventLike, EventStatus};
use vstd::prelude::*;
use vstd::utf8::is_ascii_chars;

verus! {

/// `icalendar::Calendar`, of which the verifier sees nothing but the names below.
#[verifier::external_type_specification]
#[verifier::external_body]
pub struct ExCalendar(Calendar);

/// `icalendar::CalendarComponent`, the item type of `Calendar`. It is declared
/// because `Calendar` dereferences to a slice of it; nothing here handles one.
#[verifier::external_type_specification]
#[verifier::external_body]
pub struct ExCalendarComponent(CalendarComponent);

/// The events that a calendar holds, in the order in which they were pushed. An
/// `icalendar::Event` keeps what it was built from as properties, one for each
/// field of an `EventView`, so the calendar determines this sequence.
pub uninterp spec fn calendar_events(calendar: Calendar) -> Seq<EventView>;

/// The name that a calendar was made with, which it keeps as its `NAME` property.
pub uninterp spec fn calendar_name(calendar: Calendar) -> Seq<char>;

/// The refresh hint that a calendar was made with, in minutes, which it keeps as
/// its `REFRESH-INTERVAL` property.
pub uninterp spec fn calendar_refresh_minutes(calendar: Calendar) -> nat;

/// Whether a calendar is built as this library builds one: its properties are
/// those that `new_calendar` gives it, in that order, and its components are
/// events that `calendar_push` has built.
pub uninterp spec fn calendar_is_kept(calendar: Calendar) -> bool;

/// Whether a calendar can be written: it is built as this library builds one,
/// and its name and the texts of its events are ASCII. On a longer line that
/// holds other characters `icalendar` may cut at a place that is no character
/// boundary, or stop moving on.
pub open spec fn writable(calendar: Calendar) -> bool {
    &&& calendar_is_kept(calendar)
    &&& is_ascii_chars(calendar_name(calendar))
    &&& forall|i: int|
        0 <= i < calendar_events(calendar).len() ==> (#[trigger] calendar_events(
            calendar,
        )[i]).valid()
}

/// Assumed of `Calendar::new`, `name`, `ttl` and `done`: they make a calendar that
/// has its default properties, then the given name, then the refresh interval of
/// so many minutes, and no component. `Duration::minutes` takes every `u32`.
#[verifier::external_body]
fn new_calendar(name: &str, refresh_minutes: u32) -> (calendar: Calendar)
    ensures
        calendar_is_kept(calendar),
        calendar_events(calendar) == Seq::<EventView>::empty(),
        calendar_name(calendar) == name@,
        calendar_refresh_minutes(calendar) == refresh_minutes,
{
    Calendar::new().name(name).ttl(&Duration::minutes(i64::from(refresh_minutes))).done()
}

/// Assumed of `len` on the slice that a `Calendar` dereferences to: it is the
/// number of the calendar's components.
#[verifier::external_body]
fn calendar_len(calendar: &Calendar) -> (len: usize)
    ensures
        len == calendar_events(*calendar).len(),
{
    calendar.len()
}

/// Assumed of `Calendar::push`: it puts the component at the end of the
/// calendar's vector and leaves the rest, the properties among it, as it was,
/// and it returns. The component is an `icalendar::Event` built from the seven
/// values, one builder call for each; the two instants become `DateTime<Utc>`
/// values, which exist because they are instants.
#[verifier::external_body]
fn calendar_push(
    calendar: &mut Calendar,
    summary: &str,
    description: &str,
    start: i64,
    end: i64,
    confidentiality: Confidentiality,
    status: Status,
    sequence_number: u32,
)
    requires
        is_instant(start as int),
        is_instant(end as int),
    ensures
        calendar_events(*final(calendar)) == calendar_events(*old(calendar)).push(
            EventView {
                summary: summary@,
                description: description@,
                start: start as int,
                end: end as int,
                confidentiality,
                status,
                sequence_number: sequence_number as nat,
            },
        ),
        calendar_name(*final(calendar)) == calendar_name(*old(calendar)),
        calendar_refresh_minutes(*final(calendar)) == calendar_refresh_minutes(*old(calendar)),
        calendar_is_kept(*final(calendar)) == calendar_is_kept(*old(calendar)),
    no_unwind
{
    let class = match confidentiality {
        Confidentiality::Public => Class::Public,
        Confidentiality::Private => Class::Private,
        Confidentiality::Confidential => Class::Confidential,
    };
    let status = match status {
        Status::Tentative => EventStatus::Tentative,
        Status::Confirmed => EventStatus::Confirmed,
        Status::Cancelled => EventStatus::Cancelled,
    };
    let start = DateTime::<Utc>::from_timestamp(start, 0).unwrap();
    let end = DateTime::<Utc>::from_timestamp(end, 0).unwrap();
    calendar.push(icalendar::Event::new().summary(summary).description(description)
        .starts(start).ends(end).class(class).status(status).sequence(sequence_number).done());
}

/// The calendar as an iCalendar document, written by `Calendar`'s `Display`, for
/// a calendar that `new_calendar` has made and `calendar_push` has filled.
/// Assumed, as the source shows it: first comes the line `BEGIN:VCALENDAR`, then
/// one line for each property of the calendar, then for each component the line
/// `BEGIN:VEVENT`, a time stamp, one line for each property of the event, an
/// identifier and the line `END:VEVENT`, and last the line `END:VCALENDAR`. A
/// text value is written with a backslash before some characters, a line of
/// more than 75 bytes goes on in further lines that begin with a space, and the
/// name is written as it stands, so that a name with a line feed may add lines of
/// its own. The time stamp and the identifier are made up while the text is
/// written: nothing is said of them.
#[verifier::external_body]
fn calendar_text(calendar: &Calendar) -> (text: String)
    requires
        writable(*calendar),
    ensures
        is_calendar_document(text@),
        !calendar_name(*calendar).contains('\n') ==> lists_calendar(
            text@,
            calendar_name(*calendar),
            calendar_refresh_minutes(*calendar),
            calendar_events(*calendar),
        ),
{
    calendar.to_string()
}

/// What a store is, mathematically.
pub struct CalendarView {
    pub name: Seq<char>,
    pub refresh_minutes: nat,
    pub events: Seq<EventView>,
}

impl CalendarView {
    /// The store as it is created: no event yet.
    pub open spec fn created(name: Seq<char>, refresh_minutes: nat) -> CalendarView {
        CalendarView { name, refresh_minutes, events: Seq::empty() }
    }

    /// The store with one more event at its end.
    pub open spec fn append(self, event: EventView) -> CalendarView {
        CalendarView { events: self.events.push(event), ..self }
    }

    /// The name of the store is ASCII and every event of it is valid.
    pub open spec fn valid(self) -> bool {
        &&& is_ascii_chars(self.name)
        &&& forall|i: int| 0 <= i < self.events.len() ==> (#[trigger] self.events[i]).valid()
    }

    /// Whether a text is a document of this store: it is framed as a calendar
    /// and, unless the name holds a line feed, lists the store.
    pub open spec fn written_as(self, text: Seq<char>) -> bool {
        &&& is_calendar_document(text)
        &&& !self.name.contains('\n') ==> lists_calendar(
            text,
            self.name,
            self.refresh_minutes,
            self.events,
        )
    }
}

/// The calendar that all requests share. Events are only ever added at its end.
/// Every store is valid, and its calendar holds the name and the refresh hint
/// that the store has.
#[derive(Debug)]
pub struct CalendarStore {
    name: String,
    refresh_minutes: u32,
    calendar: Calendar,
}

impl View for CalendarStore {
    type V = CalendarView;

    closed spec fn view(&self) -> CalendarView {
        CalendarView {
            name: self.name@,
            refresh_minutes: self.refresh_minutes as nat,
            events: calendar_events(self.calendar),
        }
    }
}

impl CalendarStore {
    /// What holds of every `CalendarStore`.
    #[verifier::type_invariant]
    closed spec fn inv(&self) -> bool {
        &&& self@.valid()
        &&& calendar_is_kept(self.calendar)
        &&& calendar_name(self.calendar) == self.name@
        &&& calendar_refresh_minutes(self.calendar) == self.refresh_minutes
    }

    /// An empty calendar with the given name, which asks its readers to fetch it
    /// again after `refresh_minutes` minutes. There is none for a name that holds
    /// a character that is not ASCII.
    pub fn create(name: &str, refresh_minutes: u32) -> (made: Option<CalendarStore>)
        ensures
            made is Some <==> is_ascii_chars(name@),
            made matches Some(store) ==> store@ == CalendarView::created(
                name@,
                refresh_minutes as nat,
            ),
    {
        if name.is_ascii() {
            Some(
                CalendarStore {
                    name: String::from_str(name),
                    refresh_minutes,
                    calendar: new_calendar(name, refresh_minutes),
                },
            )
        } else {
            None
        }
    }

    /// The name that the calendar was created with.
    pub fn name(&self) -> (name: &str)
        ensures
            name@ == self@.name,
    {
        self.name.as_str()
    }

    /// The minutes after which readers are asked to fetch the calendar again.
    pub fn refresh_minutes(&self) -> (refresh_minutes: u32)
        ensures
            refresh_minutes == self@.refresh_minutes,
    {
        self.refresh_minutes
    }

    /// The number of events appended so far.
    pub fn length(&self) -> (len: usize)
        ensures
            len == self@.events.len(),
            self@.valid(),
    {
        proof {
            use_type_invariant(self);
        }
        calendar_len(&self.calendar)
    }

    /// Adds an event at the end; what was there stays as it was, in its order.
    pub fn append(&mut self, event: Event)
        ensures
            final(self)@ == old(self)@.append(event@),
            old(self)@.events.is_prefix_of(final(self)@.events),
            final(self)@.valid(),
    {
        proof {
            use_type_invariant(&event);
            use_type_invariant(&*self);
            let before = self@.events;
            assert forall|i: int| 0 <= i < before.push(event@).len() implies (#[trigger] before.push(
                event@,
            )[i]).valid() by {
                if i < before.len() {
                    assert(before[i].valid());
                }
            }
        }
        calendar_push(
            &mut self.calendar,
            event.summary(),
            event.description(),
            event.start(),
            event.end(),
            event.confidentiality(),
            event.status(),
            event.sequence_number(),
        );
    }

    /// The whole calendar as an iCalendar document, as `icalendar` writes it: the
    /// name, the refresh hint and one block for each event, in their order, between
    /// the line that opens a calendar and the line that closes it.
    pub fn serialize(&self) -> (text: String)
        ensures
            self@.written_as(text@),
    {
        proof {
            use_type_invariant(self);
            assert forall|i: int| 0 <= i < calendar_events(self.calendar).len() implies (
            #[trigger] calendar_events(self.calendar)[i]).valid() by {
                assert(self@.events[i].valid());
            }
        }
        calendar_text(&self.calendar)
    }
}

} // verus!
