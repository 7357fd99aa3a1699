use taskpanel::color::Color;
use taskpanel::schedule::{
    classify_date, classify_time, format_date_long, marker_color, DateParts, DateTimeParts,
    TaskDue, TaskDueState, TaskDuration,
};

fn parts(epoch: i64, y: i32, m: u8, d: u8, h: u8, min: u8) -> DateTimeParts {
    DateTimeParts { epoch, year: y, month: m, day: d, hour: h, minute: min }
}

fn due_at(epoch: i64) -> DateTimeParts {
    parts(epoch, 2024, 1, 15, 10, 0)
}

#[test]
fn classify_time_past_when_now_after_effective_end() {
    let d = due_at(1000);
    // now > d + duration
    assert!(matches!(classify_time(&d, 60, 1061), TaskDueState::PastTime(_)));
}

#[test]
fn classify_time_now_within_window() {
    let d = due_at(1000);
    // d < now <= d + duration
    assert!(matches!(classify_time(&d, 60, 1001), TaskDueState::NowTime));
    assert!(matches!(classify_time(&d, 60, 1060), TaskDueState::NowTime));
}

#[test]
fn classify_time_future_before_window() {
    let d = due_at(1000);
    assert!(matches!(classify_time(&d, 60, 999), TaskDueState::FutureTime(_)));
    // at the opening instant itself the window counts as not yet open
    assert!(matches!(classify_time(&d, 60, 1000), TaskDueState::FutureTime(_)));
}

#[test]
fn classify_time_zero_duration_has_no_open_window() {
    let d = due_at(1000);
    assert!(matches!(classify_time(&d, 0, 1001), TaskDueState::PastTime(_)));
    assert!(matches!(classify_time(&d, 0, 1000), TaskDueState::FutureTime(_)));
}

#[test]
fn classify_date_past_today_future() {
    let today = DateParts { year: 2024, month: 6, day: 15 };
    let before = DateParts { year: 2024, month: 6, day: 14 };
    let after = DateParts { year: 2024, month: 7, day: 1 };
    assert!(matches!(classify_date(&before, &today), TaskDueState::PastDate(_)));
    assert!(matches!(classify_date(&today, &today), TaskDueState::NowDate));
    assert!(matches!(classify_date(&after, &today), TaskDueState::FutureDate(_)));
}

#[test]
fn state_date_only_paths() {
    let now = parts(1_700_000_000, 2024, 1, 15, 12, 0);
    let past = TaskDue {
        date: "2024-01-10".to_string(),
        datetime: None,
        timezone: None,
    };
    let today = TaskDue {
        date: "2024-01-15".to_string(),
        datetime: None,
        timezone: None,
    };
    let future = TaskDue {
        date: "2024-02-01".to_string(),
        datetime: None,
        timezone: None,
    };
    let garbage = TaskDue {
        date: "not-a-date".to_string(),
        datetime: None,
        timezone: None,
    };
    assert!(matches!(past.state(None, &now), TaskDueState::PastDate(_)));
    assert!(matches!(today.state(None, &now), TaskDueState::NowDate));
    assert!(matches!(future.state(None, &now), TaskDueState::FutureDate(_)));
    assert!(matches!(garbage.state(None, &now), TaskDueState::Unknown));
}

#[test]
fn state_bad_datetime_falls_back_to_date() {
    let now = parts(1_700_000_000, 2024, 1, 15, 12, 0);
    let due = TaskDue {
        date: "2024-01-15".to_string(),
        datetime: Some("99:99 o'clock".to_string()),
        timezone: None,
    };
    assert!(matches!(due.state(None, &now), TaskDueState::NowDate));
}

#[test]
fn state_invalid_date_in_valid_format_is_unknown() {
    let now = parts(1_700_000_000, 2024, 1, 15, 12, 0);
    let due = TaskDue {
        date: "2024-02-31".to_string(),
        datetime: None,
        timezone: None,
    };
    assert!(matches!(due.state(None, &now), TaskDueState::Unknown));
}

#[test]
fn label_todo_for_unknown() {
    let today = DateParts { year: 2024, month: 1, day: 15 };
    assert_eq!(TaskDueState::Unknown.label(&today), "todo");
}

#[test]
fn label_fixed_words() {
    let today = DateParts { year: 2024, month: 1, day: 15 };
    assert_eq!(TaskDueState::NowDate.label(&today), "today");
    assert_eq!(TaskDueState::NowTime.label(&today), "now");
}

#[test]
fn label_day_month_zero_padded() {
    let today = DateParts { year: 2024, month: 1, day: 15 };
    let d = DateParts { year: 2024, month: 3, day: 7 };
    assert_eq!(TaskDueState::PastDate(d).label(&today), "07/03");
    assert_eq!(TaskDueState::FutureDate(d).label(&today), "07/03");
}

#[test]
fn label_time_of_day_on_today() {
    let today = DateParts { year: 2024, month: 1, day: 15 };
    let p = parts(0, 2024, 1, 15, 9, 5);
    assert_eq!(TaskDueState::FutureTime(p).label(&today), "09:05");
    assert_eq!(TaskDueState::PastTime(p).label(&today), "09:05");
}

#[test]
fn label_day_month_on_other_days() {
    let today = DateParts { year: 2024, month: 1, day: 15 };
    let p = parts(0, 2024, 1, 16, 9, 5);
    assert_eq!(TaskDueState::FutureTime(p).label(&today), "16/01");
}

#[test]
fn duration_seconds_by_unit() {
    let m = TaskDuration { amount: 30, unit: "minute".to_string() };
    let d = TaskDuration { amount: 2, unit: "day".to_string() };
    let other = TaskDuration { amount: 7, unit: "week".to_string() };
    assert_eq!(m.seconds(), 1800);
    assert_eq!(d.seconds(), 172800);
    assert_eq!(other.seconds(), 0);
}

#[test]
fn duration_labels() {
    let m = TaskDuration { amount: 30, unit: "minute".to_string() };
    let d = TaskDuration { amount: 2, unit: "day".to_string() };
    let other = TaskDuration { amount: 5, unit: "h".to_string() };
    assert_eq!(m.label(), "30m");
    assert_eq!(d.label(), "2d");
    assert_eq!(other.label(), "5h");
}

#[test]
fn marker_color_policy() {
    assert_eq!(marker_color(true, 4), Color::Green);
    assert_eq!(marker_color(false, 1), Color::White);
    assert_eq!(marker_color(false, 2), Color::Blue);
    assert_eq!(marker_color(false, 3), Color::Orange);
    assert_eq!(marker_color(false, 4), Color::Red);
    assert_eq!(marker_color(false, 9), Color::Black);
}

#[test]
fn long_date_label_formats_real_dates() {
    let d = DateParts { year: 2024, month: 1, day: 15 };
    assert_eq!(format_date_long(&d).unwrap(), "Mon 15 January");
    let bad = DateParts { year: 2024, month: 2, day: 31 };
    assert!(format_date_long(&bad).is_none());
}

#[test]
fn state_offset_qualified_datetime_classifies_by_instant() {
    // the due instant is 2024-01-15 10:00 UTC = 1705312800 on the time line
    let due = TaskDue {
        date: "2024-01-15".to_string(),
        datetime: Some("2024-01-15T10:00:00Z".to_string()),
        timezone: None,
    };
    let hour = 3600;
    let after = parts(1705312800 + hour, 2024, 1, 15, 13, 0);
    assert!(matches!(due.state(None, &after), TaskDueState::PastTime(_)));
    let before = parts(1705312800 - hour, 2024, 1, 15, 11, 0);
    assert!(matches!(due.state(None, &before), TaskDueState::FutureTime(_)));
    // a duration keeps the window open past the due instant
    let duration = TaskDuration { amount: 2, unit: "day".to_string() };
    assert!(matches!(due.state(Some(&duration), &after), TaskDueState::NowTime));
}

#[test]
fn state_naive_datetime_keeps_the_parsed_calendar_fields() {
    // the naive text is read in the host timezone; three days later it is
    // past wherever the host sits, and the carried fields are the parsed ones
    let due = TaskDue {
        date: "2024-01-15".to_string(),
        datetime: Some("2024-01-15T10:00:00".to_string()),
        timezone: None,
    };
    let now = parts(1705312800 + 3 * 86400, 2024, 1, 18, 13, 0);
    match due.state(None, &now) {
        TaskDueState::PastTime(p) => {
            assert_eq!((p.year, p.month, p.day, p.hour, p.minute), (2024, 1, 15, 10, 0));
        }
        other => panic!("expected a past time, got {:?}", other),
    }
}
