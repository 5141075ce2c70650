use calendar_feed::event::{Confidentiality, Event, Status};
use calendar_feed::instant::{MAX_INSTANT, MIN_INSTANT};

fn meeting(start: i64, end: i64) -> Option<Event> {
    Event::new(
        String::from("meeting"),
        String::from("weekly"),
        start,
        end,
        Confidentiality::Private,
        Status::Tentative,
        7,
    )
}

#[test]
fn event_keeps_what_it_was_made_of() {
    let event = meeting(1_000, 4_600).expect("a valid event");
    assert_eq!(event.summary(), "meeting");
    assert_eq!(event.description(), "weekly");
    assert_eq!(event.start(), 1_000);
    assert_eq!(event.end(), 4_600);
    assert_eq!(event.confidentiality(), Confidentiality::Private);
    assert_eq!(event.status(), Status::Tentative);
    assert_eq!(event.sequence_number(), 7);
}

#[test]
fn event_must_end_after_its_start() {
    assert!(meeting(1_000, 1_000).is_none());
    assert!(meeting(1_000, 999).is_none());
    assert!(meeting(1_000, 1_001).is_some());
    assert!(meeting(-5, -4).is_some());
}

#[test]
fn event_must_lie_within_the_instants() {
    assert!(meeting(MIN_INSTANT, MIN_INSTANT + 1).is_some());
    assert!(meeting(MAX_INSTANT - 1, MAX_INSTANT).is_some());
    assert!(meeting(MIN_INSTANT - 1, 0).is_none());
    assert!(meeting(0, MAX_INSTANT + 1).is_none());
    assert!(meeting(i64::MIN, i64::MAX).is_none());
}
