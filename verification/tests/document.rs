use calendar_feed::event::{Confidentiality, Event, Status};
use calendar_feed::store::CalendarStore;

// What the library states of a document, written once more in plain Rust, so
// that it can be held against what `icalendar` writes.

fn lines(text: &str) -> Vec<String> {
    let mut all = vec![String::new()];
    let mut last = None;
    for c in text.chars() {
        if c == '\n' && last == Some('\r') {
            all.last_mut().expect("a line").pop();
            all.push(String::new());
        } else {
            all.last_mut().expect("a line").push(c);
        }
        last = Some(c);
    }
    all
}

fn lines_with(text: &str, key: &str) -> Vec<String> {
    lines(text).into_iter().filter(|line| line.starts_with(key)).collect()
}

fn count_of(text: &str, line: &str) -> usize {
    lines(text).into_iter().filter(|other| other == line).count()
}

fn is_escaped(c: char) -> bool {
    c == '\\' || c == ',' || c == ';' || c == '\n'
}

fn written_as_is(key: &str, value: &str) -> bool {
    key.chars().count() + value.chars().count() <= 75 && !value.chars().any(is_escaped)
}

fn holds_lines(text: &str, key: &str, values: &[String]) -> bool {
    let found = lines_with(text, key);
    found.len() == values.len()
        && values
            .iter()
            .enumerate()
            .all(|(i, value)| !written_as_is(key, value) || found[i] == format!("{}{}", key, value))
}

fn class_text(confidentiality: Confidentiality) -> String {
    String::from(match confidentiality {
        Confidentiality::Public => "PUBLIC",
        Confidentiality::Private => "PRIVATE",
        Confidentiality::Confidential => "CONFIDENTIAL",
    })
}

fn status_text(status: Status) -> String {
    String::from(match status {
        Status::Tentative => "TENTATIVE",
        Status::Confirmed => "CONFIRMED",
        Status::Cancelled => "CANCELLED",
    })
}

fn refresh_text(minutes: u32) -> String {
    if minutes == 0 {
        String::from("P0D")
    } else {
        format!("PT{}S", 60 * minutes as u64)
    }
}

struct Plain {
    summary: String,
    description: String,
    confidentiality: Confidentiality,
    status: Status,
    sequence_number: u32,
}

fn lists_calendar(text: &str, name: &str, refresh_minutes: u32, events: &[Plain]) -> bool {
    let of = |pick: &dyn Fn(&Plain) -> String| events.iter().map(pick).collect::<Vec<String>>();
    holds_lines(text, "NAME:", &[String::from(name)])
        && holds_lines(text, "X-WR-CALNAME:", &[String::from(name)])
        && holds_lines(text, "REFRESH-INTERVAL;VALUE=DURATION:", &[refresh_text(refresh_minutes)])
        && holds_lines(text, "X-PUBLISHED-TTL:", &[refresh_text(refresh_minutes)])
        && count_of(text, "BEGIN:VEVENT") == events.len()
        && count_of(text, "END:VEVENT") == events.len()
        && holds_lines(text, "SUMMARY:", &of(&|e| e.summary.clone()))
        && holds_lines(text, "DESCRIPTION:", &of(&|e| e.description.clone()))
        && holds_lines(text, "CLASS:", &of(&|e| class_text(e.confidentiality)))
        && holds_lines(text, "STATUS:", &of(&|e| status_text(e.status)))
        && holds_lines(text, "SEQUENCE:", &of(&|e| e.sequence_number.to_string()))
        && lines_with(text, "DTSTART:").len() == events.len()
        && lines_with(text, "DTEND:").len() == events.len()
}

fn written_as(text: &str, name: &str, refresh_minutes: u32, events: &[Plain]) -> bool {
    text.starts_with("BEGIN:VCALENDAR\r\n")
        && text.ends_with("END:VCALENDAR\r\n")
        && text.len() >= 32
        && (name.contains('\n') || lists_calendar(text, name, refresh_minutes, events))
}

fn texts() -> Vec<String> {
    let mut all: Vec<String> = [
        "",
        "test event 1",
        "here I have something really important to do",
        "a, b; c \\ d",
        "first\nsecond",
        "first\r\nsecond",
        "ends in a carriage return\r",
        "\r",
        "\n",
        "\r\r\n\n",
        "BEGIN:VEVENT",
        "x\r\nBEGIN:VEVENT\r\nSUMMARY:forged\r\nEND:VEVENT",
        "\r\n SUMMARY:forged",
        " leading space",
        "tab\there",
    ]
    .iter()
    .map(|s| String::from(*s))
    .collect();
    for len in [60usize, 62, 63, 64, 66, 67, 68, 70, 74, 75, 76, 80, 140, 141, 149, 150, 151, 300] {
        all.push("x".repeat(len));
        all.push(" ".repeat(len));
        all.push("word ".repeat(len / 5 + 1));
        all.push(format!("{}{}", "y".repeat(len), " ".repeat(len)));
        all.push(format!("{}\r", ",".repeat(len)));
        all.push(format!("{}\r{}", "z".repeat(len), "z".repeat(len)));
    }
    all
}

fn names() -> Vec<String> {
    let mut all: Vec<String> = ["", "example calendar", "a, b; c \\ d", "with\rcarriage return", "\r"]
        .iter()
        .map(|s| String::from(*s))
        .collect();
    for len in [69usize, 70, 71, 74, 75, 76, 150, 300] {
        all.push("n".repeat(len));
        all.push(" ".repeat(len));
        all.push(format!("{}\r{}", "m".repeat(len), " ".repeat(len)));
    }
    all
}

#[test]
fn lines_are_what_stands_between_line_ends() {
    for text in texts() {
        let split: Vec<String> = text.split("\r\n").map(String::from).collect();
        assert_eq!(lines(&text), split);
    }
    assert_eq!(lines("a\r\nb\r\n"), vec!["a", "b", ""]);
    assert_eq!(lines("a\r\r\nb"), vec!["a\r", "b"]);
    assert_eq!(lines("a\nb\rc"), vec!["a\nb\rc"]);
}

#[test]
fn document_lists_every_text_as_stated() {
    let all = texts();
    for (i, summary) in all.iter().enumerate() {
        let description = &all[(i * 7 + 3) % all.len()];
        let mut store = CalendarStore::create("example calendar", 1).expect("a name in ASCII");
        let mut events = Vec::new();
        for (k, (s, d)) in [(summary, description), (description, summary)].iter().enumerate() {
            store.append(
                Event::new(
                    (*s).clone(),
                    (*d).clone(),
                    k as i64,
                    k as i64 + 60,
                    Confidentiality::Private,
                    Status::Cancelled,
                    k as u32,
                )
                .expect("a valid event"),
            );
            events.push(Plain {
                summary: (*s).clone(),
                description: (*d).clone(),
                confidentiality: Confidentiality::Private,
                status: Status::Cancelled,
                sequence_number: k as u32,
            });
            let text = store.serialize();
            assert!(written_as(&text, "example calendar", 1, &events), "{:?}", text);
        }
    }
}

#[test]
fn document_lists_every_name_as_stated() {
    for name in names() {
        for minutes in [0u32, 1, 90, u32::MAX] {
            let mut store = CalendarStore::create(&name, minutes).expect("a name in ASCII");
            let empty = store.serialize();
            assert!(written_as(&empty, &name, minutes, &[]), "{:?}", empty);
            store.append(
                Event::new(
                    String::from("test event 1"),
                    String::from("notes"),
                    0,
                    60,
                    Confidentiality::Public,
                    Status::Tentative,
                    u32::MAX,
                )
                .expect("a valid event"),
            );
            let events = [Plain {
                summary: String::from("test event 1"),
                description: String::from("notes"),
                confidentiality: Confidentiality::Public,
                status: Status::Tentative,
                sequence_number: u32::MAX,
            }];
            let text = store.serialize();
            assert!(written_as(&text, &name, minutes, &events), "{:?}", text);
            assert_eq!(lines_with(&text, "SUMMARY:"), vec!["SUMMARY:test event 1"]);
            assert_eq!(lines_with(&text, "SEQUENCE:"), vec!["SEQUENCE:4294967295"]);
        }
    }
}

#[test]
fn name_with_a_line_feed_can_add_lines() {
    let name = "x\r\nBEGIN:VEVENT\r\nSUMMARY:forged\r\nEND:VEVENT";
    let store = CalendarStore::create(name, 1).expect("a name in ASCII");
    let text = store.serialize();
    assert_eq!(store.length(), 0);
    assert!(text.starts_with("BEGIN:VCALENDAR\r\n"));
    assert!(text.ends_with("END:VCALENDAR\r\n"));
    assert!(written_as(&text, name, 1, &[]));
    assert_eq!(count_of(&text, "BEGIN:VEVENT"), 1);
}

#[test]
fn texts_beyond_ascii_are_refused() {
    let wide = "\u{a0}".repeat(160);
    let mixed = format!("{}{}", "\u{e9}".repeat(120), " ".repeat(200));
    for text in [wide.as_str(), mixed.as_str(), "\u{e9}", "caf\u{e9}", "\u{80}"] {
        assert!(CalendarStore::create(text, 1).is_none());
        assert!(Event::new(
            String::from(text),
            String::from("notes"),
            0,
            60,
            Confidentiality::Public,
            Status::Confirmed,
            0
        )
        .is_none());
        assert!(Event::new(
            String::from("summary"),
            String::from(text),
            0,
            60,
            Confidentiality::Public,
            Status::Confirmed,
            0
        )
        .is_none());
    }
    assert!(CalendarStore::create("\u{7f}", 1).is_some());
    assert!(CalendarStore::create("", 1).is_some());
}

#[test]
fn long_ascii_texts_are_written() {
    let mut store = CalendarStore::create(&" ".repeat(1000), 1).expect("a name in ASCII");
    for text in [" ".repeat(160), format!("{}{}", "e".repeat(120), " ".repeat(200)), "\t ".repeat(500)] {
        store.append(
            Event::new(text.clone(), text, 0, 60, Confidentiality::Public, Status::Confirmed, 0)
                .expect("a valid event"),
        );
    }
    let text = store.serialize();
    assert_eq!(count_of(&text, "BEGIN:VEVENT"), 3);
    assert_eq!(lines_with(&text, "SUMMARY:").len(), 3);
}
