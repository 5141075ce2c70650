//! The lines of an iCalendar document, and what a document written by
//! `icalendar` says of the calendar that it was written from.

use crate::event::{Confidentiality, EventView, Status};
use crate::ordinal::decimal;
use vstd::prelude::*;

verus! {

/// Whether a text is framed as an iCalendar object: it opens with the line
/// `BEGIN:VCALENDAR` and closes with the line `END:VCALENDAR`, each of them ended
/// by a carriage return and a line feed, and the two do not overlap.
pub open spec fn is_calendar_document(text: Seq<char>) -> bool {
    let opening = "BEGIN:VCALENDAR\r\n"@;
    let closing = "END:VCALENDAR\r\n"@;
    &&& opening.len() + closing.len() <= text.len()
    &&& text.subrange(0, opening.len() as int) == opening
    &&& text.subrange(text.len() - closing.len(), text.len() as int) == closing
}

/// The lines of a text: what stands before, between and after its line ends, in
/// order. A line end is a carriage return with a line feed behind it. The text is
/// read character by character: a line feed behind a carriage return takes the
/// carriage return off the line that was being read and begins a new line.
pub open spec fn lines(text: Seq<char>) -> Seq<Seq<char>>
    decreases text.len(),
{
    if text.len() == 0 {
        seq![Seq::<char>::empty()]
    } else {
        let before = lines(text.drop_last());
        if text.last() == '\n' && text.len() >= 2 && text[text.len() - 2] == '\r' {
            before.drop_last().push(before.last().drop_last()).push(Seq::<char>::empty())
        } else {
            before.drop_last().push(before.last().push(text.last()))
        }
    }
}

/// The lines of a text that begin with the given key, in their order.
pub open spec fn lines_with(text: Seq<char>, key: Seq<char>) -> Seq<Seq<char>> {
    lines(text).filter(|line: Seq<char>| key.is_prefix_of(line))
}

/// How many lines of a text are the given line, whole.
pub open spec fn count_of(text: Seq<char>, line: Seq<char>) -> nat {
    lines(text).filter(|other: Seq<char>| other == line).len()
}

/// Whether `icalendar` writes a character of a text value behind a backslash.
pub open spec fn is_escaped(c: char) -> bool {
    c == '\\' || c == ',' || c == ';' || c == '\n'
}

/// Whether a property is written as it stands, on one line: its key and value
/// fill no more than the 75 places after which a line is folded, and no character
/// of the value is escaped.
pub open spec fn written_as_is(key: Seq<char>, value: Seq<char>) -> bool {
    &&& key.len() + value.len() <= 75
    &&& forall|i: int| 0 <= i < value.len() ==> !is_escaped(#[trigger] value[i])
}

/// Whether a text holds one line for each of the given values, in their order,
/// that begins with the key, and no other line that begins with it; the line of
/// a value that is written as it stands is the key with the value behind it.
pub open spec fn holds_lines(text: Seq<char>, key: Seq<char>, values: Seq<Seq<char>>) -> bool {
    &&& lines_with(text, key).len() == values.len()
    &&& forall|i: int|
        0 <= i < values.len() && written_as_is(key, #[trigger] values[i]) ==> lines_with(
            text,
            key,
        )[i] == key + values[i]
}

/// The word that a document has for a classification.
pub open spec fn class_text(confidentiality: Confidentiality) -> Seq<char> {
    match confidentiality {
        Confidentiality::Public => "PUBLIC"@,
        Confidentiality::Private => "PRIVATE"@,
        Confidentiality::Confidential => "CONFIDENTIAL"@,
    }
}

/// The word that a document has for a status.
pub open spec fn status_text(status: Status) -> Seq<char> {
    match status {
        Status::Tentative => "TENTATIVE"@,
        Status::Confirmed => "CONFIRMED"@,
        Status::Cancelled => "CANCELLED"@,
    }
}

/// A refresh hint as a document writes it: the ISO 8601 duration of so many
/// minutes, in seconds, as `chrono` prints it.
pub open spec fn refresh_text(minutes: nat) -> Seq<char> {
    if minutes == 0 {
        "P0D"@
    } else {
        "PT"@ + decimal(60 * minutes) + "S"@
    }
}

/// What a document says of the calendar with this name, refresh hint and events:
/// it names the calendar and its refresh hint, and holds one block for each
/// event, in the order of the events, with a line for each of the event's fields.
/// Of the lines that hold the two instants of an event only the number is said.
pub open spec fn lists_calendar(
    text: Seq<char>,
    name: Seq<char>,
    refresh_minutes: nat,
    events: Seq<EventView>,
) -> bool {
    &&& holds_lines(text, "NAME:"@, seq![name])
    &&& holds_lines(text, "X-WR-CALNAME:"@, seq![name])
    &&& holds_lines(text, "REFRESH-INTERVAL;VALUE=DURATION:"@, seq![refresh_text(refresh_minutes)])
    &&& holds_lines(text, "X-PUBLISHED-TTL:"@, seq![refresh_text(refresh_minutes)])
    &&& count_of(text, "BEGIN:VEVENT"@) == events.len()
    &&& count_of(text, "END:VEVENT"@) == events.len()
    &&& holds_lines(text, "SUMMARY:"@, events.map_values(|event: EventView| event.summary))
    &&& holds_lines(text, "DESCRIPTION:"@, events.map_values(|event: EventView| event.description))
    &&& holds_lines(
        text,
        "CLASS:"@,
        events.map_values(|event: EventView| class_text(event.confidentiality)),
    )
    &&& holds_lines(text, "STATUS:"@, events.map_values(|event: EventView| status_text(event.status)))
    &&& holds_lines(
        text,
        "SEQUENCE:"@,
        events.map_values(|event: EventView| decimal(event.sequence_number)),
    )
    &&& lines_with(text, "DTSTART:"@).len() == events.len()
    &&& lines_with(text, "DTEND:"@).len() == events.len()
}

} // verus!
