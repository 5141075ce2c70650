//! Calendar events as plain values.

use crate::instant::{check_instant, is_instant};
use vstd::prelude::*;
use vstd::utf8::is_ascii_chars;

verus! {

/// Who may see an event.
#[derive(Clone, Copy, Debug, PartialEq, Eq, Structural)]
pub enum Confidentiality {
    Public,
    Private,
    Confidential,
}

/// How definite an event is.
#[derive(Clone, Copy, Debug, PartialEq, Eq, Structural)]
pub enum Status {
    Tentative,
    Confirmed,
    Cancelled,
}

/// What an event is, mathematically: its texts, its two instants in seconds since
/// the epoch, and its classification.
pub struct EventView {
    pub summary: Seq<char>,
    pub description: Seq<char>,
    pub start: int,
    pub end: int,
    pub confidentiality: Confidentiality,
    pub status: Status,
    pub sequence_number: nat,
}

impl EventView {
    /// An event begins and ends at instants that a date-time can hold, and ends
    /// after it begins. Its two texts are ASCII: `icalendar` cannot fold every
    /// line that holds other characters.
    pub open spec fn valid(self) -> bool {
        &&& is_ascii_chars(self.summary)
        &&& is_ascii_chars(self.description)
        &&& is_instant(self.start)
        &&& is_instant(self.end)
        &&& self.start < self.end
    }
}

/// One scheduled item. Every `Event` is valid: it ends after it starts, and its
/// texts are ASCII.
#[derive(Debug)]
pub struct Event {
    summary: String,
    description: String,
    start: i64,
    end: i64,
    confidentiality: Confidentiality,
    status: Status,
    sequence_number: u32,
}

impl View for Event {
    type V = EventView;

    closed spec fn view(&self) -> EventView {
        EventView {
            summary: self.summary@,
            description: self.description@,
            start: self.start as int,
            end: self.end as int,
            confidentiality: self.confidentiality,
            status: self.status,
            sequence_number: self.sequence_number as nat,
        }
    }
}

impl Event {
    /// What holds of every `Event`.
    #[verifier::type_invariant]
    pub open spec fn inv(&self) -> bool {
        self@.valid()
    }

    /// Makes an event, unless it would not end after its start, one of its
    /// instants is out of range, or one of its texts holds a character that is
    /// not ASCII.
    pub fn new(
        summary: String,
        description: String,
        start: i64,
        end: i64,
        confidentiality: Confidentiality,
        status: Status,
        sequence_number: u32,
    ) -> (made: Option<Event>)
        ensures
            made is Some <==> is_ascii_chars(summary@) && is_ascii_chars(description@)
                && is_instant(start as int) && is_instant(end as int) && start < end,
            made matches Some(event) ==> event@ == (EventView {
                summary: summary@,
                description: description@,
                start: start as int,
                end: end as int,
                confidentiality,
                status,
                sequence_number: sequence_number as nat,
            }),
    {
        if summary.as_str().is_ascii() && description.as_str().is_ascii() && check_instant(start)
            && check_instant(end) && start < end {
            Some(Event { summary, description, start, end, confidentiality, status, sequence_number })
        } else {
            None
        }
    }

    /// The short text that names the event.
    pub fn summary(&self) -> (summary: &str)
        ensures
            summary@ == self@.summary,
    {
        self.summary.as_str()
    }

    /// The longer text that describes the event.
    pub fn description(&self) -> (description: &str)
        ensures
            description@ == self@.description,
    {
        self.description.as_str()
    }

    /// The instant at which the event starts.
    pub fn start(&self) -> (start: i64)
        ensures
            start == self@.start,
            self@.valid(),
    {
        proof {
            use_type_invariant(self);
        }
        self.start
    }

    /// The instant at which the event ends, which is later than its start.
    pub fn end(&self) -> (end: i64)
        ensures
            end == self@.end,
            self@.valid(),
    {
        proof {
            use_type_invariant(self);
        }
        self.end
    }

    /// Who may see the event.
    pub fn confidentiality(&self) -> (confidentiality: Confidentiality)
        ensures
            confidentiality == self@.confidentiality,
    {
        self.confidentiality
    }

    /// How definite the event is.
    pub fn status(&self) -> (status: Status)
        ensures
            status == self@.status,
    {
        self.status
    }

    /// The number of the event's revision.
    pub fn sequence_number(&self) -> (sequence_number: u32)
        ensures
            sequence_number == self@.sequence_number,
    {
        self.sequence_number
    }
}

} // verus!
