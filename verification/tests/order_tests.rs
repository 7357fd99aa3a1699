use core::cmp::Ordering;
use taskpanel::order::lex_cmp;
use taskpanel::schedule::TaskDue;
use taskpanel::tasks::{build_snapshots, sort_tasks, task_cmp, task_le, Task};

fn task(id: &str, priority: u8, order: i32, due: Option<TaskDue>) -> Task {
    Task {
        id: id.to_string(),
        priority,
        order,
        content: format!("task {}", id),
        description: String::new(),
        due,
        is_completed: false,
        duration: None,
    }
}

fn due(date: &str, datetime: Option<&str>) -> TaskDue {
    TaskDue {
        date: date.to_string(),
        datetime: datetime.map(|s| s.to_string()),
        timezone: None,
    }
}

#[test]
fn lex_cmp_orders_strings() {
    assert_eq!(lex_cmp("abc", "abd"), Ordering::Less);
    assert_eq!(lex_cmp("abc", "abc"), Ordering::Equal);
    assert_eq!(lex_cmp("abd", "abc"), Ordering::Greater);
    assert_eq!(lex_cmp("ab", "abc"), Ordering::Less);
    assert_eq!(lex_cmp("abc", "ab"), Ordering::Greater);
    assert_eq!(lex_cmp("", ""), Ordering::Equal);
    // fixed-width timestamps compare chronologically
    assert_eq!(
        lex_cmp("2024-01-15T09:00:00", "2024-01-15T10:00:00"),
        Ordering::Less
    );
}

#[test]
fn datetime_sorts_before_date_only_before_no_due() {
    let with_dt = task("a", 1, 0, Some(due("2024-01-15", Some("2024-01-15T10:00:00"))));
    let date_only = task("b", 1, 1, Some(due("2024-01-10", None)));
    let no_due = task("c", 1, 2, None);
    assert_eq!(task_cmp(&with_dt, &date_only), Ordering::Less);
    assert_eq!(task_cmp(&date_only, &no_due), Ordering::Less);
    assert_eq!(task_cmp(&with_dt, &no_due), Ordering::Less);
    assert_eq!(task_cmp(&no_due, &with_dt), Ordering::Greater);
}

#[test]
fn datetimes_compare_by_text_then_date() {
    let early = task("a", 1, 0, Some(due("2024-01-15", Some("2024-01-15T09:00:00"))));
    let late = task("b", 1, 1, Some(due("2024-01-15", Some("2024-01-15T11:00:00"))));
    assert_eq!(task_cmp(&early, &late), Ordering::Less);
    let d1 = task("c", 1, 2, Some(due("2024-01-10", None)));
    let d2 = task("d", 1, 3, Some(due("2024-01-20", None)));
    assert_eq!(task_cmp(&d1, &d2), Ordering::Less);
}

#[test]
fn priority_breaks_ties_in_reverse() {
    let low = task("a", 1, 0, None);
    let high = task("b", 4, 1, None);
    // higher priority sorts first
    assert_eq!(task_cmp(&high, &low), Ordering::Less);
    assert_eq!(task_cmp(&low, &high), Ordering::Greater);
}

#[test]
fn insertion_order_is_the_final_tie_break() {
    let first = task("a", 2, 3, None);
    let second = task("b", 2, 7, None);
    assert_eq!(task_cmp(&first, &second), Ordering::Less);
    assert_eq!(task_cmp(&second, &first), Ordering::Greater);
    let same = task("c", 2, 3, None);
    assert_eq!(task_cmp(&first, &same), Ordering::Equal);
}

#[test]
fn task_le_is_total() {
    let a = task("a", 2, 3, Some(due("2024-01-15", None)));
    let b = task("b", 3, 1, None);
    assert!(task_le(&a, &b) || task_le(&b, &a));
}

#[test]
fn sort_orders_a_scrambled_fetch() {
    let mut tasks = vec![
        task("no-due-low", 1, 4, None),
        task("date-late", 2, 3, Some(due("2024-02-01", None))),
        task("dt", 1, 2, Some(due("2024-01-15", Some("2024-01-15T10:00:00")))),
        task("no-due-high", 4, 1, None),
        task("date-early", 2, 0, Some(due("2024-01-10", None))),
    ];
    sort_tasks(&mut tasks);
    let ids: Vec<&str> = tasks.iter().map(|t| t.id.as_str()).collect();
    assert_eq!(ids, vec!["dt", "date-early", "date-late", "no-due-high", "no-due-low"]);
}

#[test]
fn sorting_twice_gives_the_same_output() {
    let mut once = vec![
        task("a", 1, 2, None),
        task("b", 3, 0, Some(due("2024-01-15", None))),
        task("c", 2, 1, None),
    ];
    sort_tasks(&mut once);
    let mut twice = once.clone();
    sort_tasks(&mut twice);
    let ids_once: Vec<&str> = once.iter().map(|t| t.id.as_str()).collect();
    let ids_twice: Vec<&str> = twice.iter().map(|t| t.id.as_str()).collect();
    assert_eq!(ids_once, ids_twice);
}

#[test]
fn task_equality_is_by_id() {
    let a = task("same", 1, 0, None);
    let b = task("same", 4, 9, Some(due("2024-01-15", None)));
    let c = task("other", 1, 0, None);
    assert!(a == b);
    assert!(a != c);
}

#[test]
fn build_snapshots_sorts_and_projects() {
    let now = taskpanel::schedule::DateTimeParts {
        epoch: 1_700_000_000,
        year: 2024,
        month: 1,
        day: 15,
        hour: 12,
        minute: 0,
    };
    let tasks = vec![
        task("late", 1, 1, None),
        task("early", 1, 0, Some(due("2024-01-10", None))),
    ];
    let snaps = build_snapshots(tasks, &now);
    assert_eq!(snaps.len(), 2);
    assert_eq!(snaps[0].title, "task early");
    assert_eq!(snaps[1].title, "task late");
    // a task with no due shows the bare to-do marker in the neutral color
    assert_eq!(snaps[1].when, "todo");
    assert_eq!(snaps[1].when_color, taskpanel::color::Color::Black);
}
