use taskpanel::color::Color;
use taskpanel::controls::{Control, Header, Popup, Rect, TaskList, TaskSnapshot};
use taskpanel::cycle::plan_cycle;
use taskpanel::intro::get_setup_tasks;
use taskpanel::retry::retry;
use taskpanel::schedule::{DateParts, DateTimeParts, TaskDue, TaskDuration};
use taskpanel::tasks::Task;

fn snapshot(title: &str) -> TaskSnapshot {
    TaskSnapshot {
        marker_color: Color::Black,
        title: title.to_string(),
        description: None,
        when: "todo".to_string(),
        when_color: Color::Black,
        duration: None,
    }
}

fn now_at(epoch: i64) -> DateTimeParts {
    DateTimeParts { epoch, year: 2024, month: 1, day: 15, hour: 12, minute: 0 }
}

fn list() -> TaskList {
    TaskList::new(Rect { x: 0, y: 30, width: 600, height: 418 })
}

#[test]
fn task_list_truncates_beyond_twelve_and_reports_the_rest() {
    let mut tasks = list();
    let incoming: Vec<TaskSnapshot> = (0..15).map(|i| snapshot(&format!("t{}", i))).collect();
    tasks.set_tasks(incoming);
    assert_eq!(tasks.rendered_count(), 12);
    assert_eq!(tasks.total_count(), 15);
    assert_eq!(tasks.total_count() - tasks.rendered_count(), 3);
}

#[test]
fn task_list_renders_all_of_a_small_fetch() {
    let mut tasks = list();
    let incoming: Vec<TaskSnapshot> = (0..5).map(|i| snapshot(&format!("t{}", i))).collect();
    tasks.set_tasks(incoming);
    assert_eq!(tasks.rendered_count(), 5);
    assert_eq!(tasks.total_count(), 5);
}

#[test]
fn task_list_dirty_tracks_changes() {
    let mut tasks = list();
    assert!(tasks.is_dirty());
    tasks.clear_dirty();
    assert!(!tasks.is_dirty());
    // the same content does not mark the widget dirty
    tasks.set_tasks(vec![snapshot("a"), snapshot("b")]);
    assert!(tasks.is_dirty());
    tasks.clear_dirty();
    tasks.set_tasks(vec![snapshot("a"), snapshot("b")]);
    assert!(!tasks.is_dirty());
    // a changed snapshot marks it dirty
    tasks.set_tasks(vec![snapshot("a"), snapshot("c")]);
    assert!(tasks.is_dirty());
    tasks.clear_dirty();
    // a changed total count alone marks it dirty
    tasks.set_tasks(vec![snapshot("a"), snapshot("b")]);
    assert!(tasks.is_dirty());
    tasks.clear_dirty();
    tasks.set_tasks(vec![snapshot("a")]);
    assert!(tasks.is_dirty());
}

#[test]
fn header_dirty_tracks_date_and_update_message() {
    let mut header = Header::new();
    assert!(header.is_dirty());
    header.clear_dirty();
    let day = DateParts { year: 2024, month: 1, day: 15 };
    header.set_date(day);
    assert!(header.is_dirty());
    header.clear_dirty();
    header.set_date(day);
    assert!(!header.is_dirty());
    header.set_last_update("Updated at 12:00".to_string(), Color::Green);
    assert!(header.is_dirty());
    header.clear_dirty();
    header.set_last_update("Updated at 12:00".to_string(), Color::Green);
    assert!(!header.is_dirty());
    header.set_last_update("Updated at 12:00".to_string(), Color::Red);
    assert!(header.is_dirty());
}

#[test]
fn popup_dirty_tracks_texts_and_colors() {
    let mut popup = Popup::new("Loading Error", "Check the key.".to_string());
    assert!(popup.is_dirty());
    popup.clear_dirty();
    popup.set_title("Loading Error");
    popup.set_message("Check the key.".to_string());
    popup.set_title_color(Color::Black);
    popup.set_message_color(Color::Black);
    assert!(!popup.is_dirty());
    popup.set_message("Other".to_string());
    assert!(popup.is_dirty());
    popup.clear_dirty();
    popup.set_title_color(Color::Red);
    assert!(popup.is_dirty());
}

#[test]
fn snapshot_of_task_without_due_is_a_neutral_todo() {
    let task = Task {
        id: "1".to_string(),
        priority: 1,
        order: 0,
        content: "**Water** the plants".to_string(),
        description: String::new(),
        due: None,
        is_completed: false,
        duration: None,
    };
    let snap = task.into_snapshot(&now_at(1_700_000_000));
    assert_eq!(snap.when, "todo");
    assert_eq!(snap.when_color, Color::Black);
    assert_eq!(snap.title, "Water the plants");
    assert!(snap.description.is_none());
    assert!(snap.duration.is_none());
    assert_eq!(snap.marker_color, Color::White);
}

#[test]
fn snapshot_projects_description_duration_and_completion() {
    let task = Task {
        id: "2".to_string(),
        priority: 3,
        order: 1,
        content: "Long task".to_string(),
        description: "  First *line* here\nsecond line".to_string(),
        due: Some(TaskDue {
            date: "2024-01-10".to_string(),
            datetime: None,
            timezone: None,
        }),
        is_completed: false,
        duration: Some(TaskDuration { amount: 45, unit: "minute".to_string() }),
    };
    let snap = task.clone().into_snapshot(&now_at(1_700_000_000));
    assert_eq!(snap.description.as_deref(), Some("First line here"));
    assert_eq!(snap.duration.as_deref(), Some("45m"));
    assert_eq!(snap.marker_color, Color::Orange);
    // a past date shows day slash month in the negative accent
    assert_eq!(snap.when, "10/01");
    assert_eq!(snap.when_color, Color::Red);
    let done = Task { is_completed: true, ..task };
    assert_eq!(done.into_snapshot(&now_at(1_700_000_000)).marker_color, Color::Green);
}

#[test]
fn setup_tasks_walk_the_checklist() {
    let tasks = get_setup_tasks(true, true, false, true, "2024-01-15 12:00:00");
    assert_eq!(tasks.len(), 5);
    assert_eq!(tasks[0].title, "Configure WiFi credentials in config.rs");
    assert_eq!(tasks[0].when, "todo");
    assert_eq!(tasks[0].marker_color, Color::Green);
    assert_eq!(tasks[1].when, "done");
    assert_eq!(tasks[1].marker_color, Color::Green);
    assert_eq!(tasks[2].when, "done");
    assert_eq!(tasks[2].marker_color, Color::Red);
    assert!(tasks[3]
        .description
        .as_deref()
        .unwrap()
        .ends_with("it is currently 2024-01-15 12:00:00."));
    assert_eq!(tasks[4].when, "todo");
    assert_eq!(tasks[4].marker_color, Color::Red);
    assert!(tasks.iter().all(|t| t.when_color == Color::Black));
    assert!(tasks.iter().all(|t| t.duration.is_none()));
}

#[test]
fn plan_cycle_offline_retries_the_link() {
    let now = now_at(10_000);
    let last = now_at(9_000);
    let d = plan_cycle(false, false, false, &now, &last);
    let (message, color) = d.header_message.unwrap();
    assert_eq!(message, "Offline");
    assert_eq!(color, Color::Red);
    assert!(d.reconnect);
    assert!(!d.show_popup);
    assert_eq!(d.sleep_seconds, 30);
    assert_eq!(d.last_update.epoch, 9_000);
}

#[test]
fn plan_cycle_success_advances_the_update_instant_on_change() {
    let now = DateTimeParts { epoch: 10_000, year: 2024, month: 1, day: 15, hour: 9, minute: 30 };
    let last = DateTimeParts { epoch: 9_000, year: 2024, month: 1, day: 15, hour: 9, minute: 13 };
    let changed = plan_cycle(true, true, true, &now, &last);
    assert_eq!(changed.last_update.epoch, 10_000);
    assert_eq!(changed.header_message.as_ref().unwrap().0, "Updated at 09:30");
    assert_eq!(changed.header_message.unwrap().1, Color::Green);
    let unchanged = plan_cycle(true, true, false, &now, &last);
    assert_eq!(unchanged.last_update.epoch, 9_000);
    assert_eq!(unchanged.header_message.unwrap().0, "Updated at 09:13");
}

#[test]
fn plan_cycle_tolerates_a_young_failure_quietly() {
    let now = now_at(10_000);
    let last = now_at(10_000 - 3599);
    let d = plan_cycle(true, false, false, &now, &last);
    assert!(d.header_message.is_none());
    assert!(!d.show_popup);
    assert_eq!(d.sleep_seconds, 300);
}

#[test]
fn plan_cycle_surfaces_a_stale_failure() {
    let now = now_at(10_000);
    let last = now_at(10_000 - 3600);
    let d = plan_cycle(true, false, false, &now, &last);
    let (message, color) = d.header_message.unwrap();
    assert_eq!(message, "Update failing consistently");
    assert_eq!(color, Color::Red);
    assert!(d.show_popup);
}

#[test]
fn retry_returns_the_first_success() {
    let r: Result<u32, &str> = retry(|| Ok(7), 3);
    assert_eq!(r, Ok(7));
}

#[test]
fn retry_returns_the_last_failure_after_all_attempts() {
    let calls = std::cell::Cell::new(0u32);
    let r: Result<u32, &str> = retry(
        || {
            calls.set(calls.get() + 1);
            Err("boom")
        },
        3,
    );
    assert_eq!(r, Err("boom"));
    assert_eq!(calls.get(), 4);
}

#[test]
fn retry_recovers_after_early_failures() {
    let calls = std::cell::Cell::new(0u32);
    let r: Result<u32, &str> = retry(
        || {
            calls.set(calls.get() + 1);
            if calls.get() < 3 {
                Err("not yet")
            } else {
                Ok(calls.get())
            }
        },
        5,
    );
    assert_eq!(r, Ok(3));
}
