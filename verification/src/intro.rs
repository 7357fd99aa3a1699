use vstd::prelude::*;
use vstd::string::{StrSliceExecFns, StringExecFns};

use crate::color::Color;
use crate::controls::TaskSnapshot;

verus! {

/// One setup checklist snapshot: fixed texts, a schedule label telling
/// whether the step is open, and a marker color grading it.
fn setup_task(title: &str, description: String, open_step: bool, good: bool) -> (r: TaskSnapshot)
    ensures
        r.title@ == title@,
        r.description is Some && r.description->Some_0@ == description@,
        r.when@ == if open_step {
            "todo"@
        } else {
            "done"@
        },
        r.when_color == Color::Black,
        r.duration is None,
        r.marker_color == if good {
            Color::Green
        } else {
            Color::Red
        },
{
    TaskSnapshot {
        title: title.to_owned(),
        description: Some(description),
        when: if open_step {
            String::from_str("todo")
        } else {
            String::from_str("done")
        },
        when_color: Color::Black,
        duration: None,
        marker_color: if good {
            Color::Green
        } else {
            Color::Red
        },
    }
}

/// The checklist shown before the first successful fetch: five steps
/// walking through network credentials, the task-source key, the network
/// connection, time synchronization and the first fetch. Each flag says
/// whether the matching piece of the environment is in place; the time
/// label is the wall clock's current reading for display.
pub fn get_setup_tasks(
    wifi_configured: bool,
    todoist_configured: bool,
    wifi_connected: bool,
    time_synced: bool,
    now_label: &str,
) -> (r: Vec<TaskSnapshot>)
    ensures
        r@.len() == 5,
        r@[0].title@ == "Configure WiFi credentials in config.rs"@,
        r@[0].when@ == (if wifi_configured {
            "todo"@
        } else {
            "done"@
        }),
        r@[0].marker_color == (if wifi_configured {
            Color::Green
        } else {
            Color::Red
        }),
        r@[1].title@ == "Configure Todoist API key in config.rs"@,
        r@[1].when@ == (if !todoist_configured {
            "todo"@
        } else {
            "done"@
        }),
        r@[1].marker_color == (if todoist_configured {
            Color::Green
        } else {
            Color::Red
        }),
        r@[2].title@ == "Connect to WiFi network"@,
        r@[2].when@ == (if wifi_connected {
            "todo"@
        } else {
            "done"@
        }),
        r@[2].marker_color == (if wifi_connected {
            Color::Green
        } else {
            Color::Red
        }),
        r@[3].title@ == "Synchronize system time"@,
        r@[3].when@ == (if time_synced {
            "todo"@
        } else {
            "done"@
        }),
        r@[3].marker_color == (if time_synced {
            Color::Green
        } else {
            Color::Red
        }),
        r@[3].description is Some && r@[3].description->Some_0@
            == "Wait for NTP to sync your system time correctly, it is currently "@ + now_label@
            + "."@,
        r@[4].title@ == "Synchronize Todoist tasks"@,
        r@[4].when@ == "todo"@,
        r@[4].marker_color == Color::Red,
        forall|i: int| 0 <= i < 5 ==> (#[trigger] r@[i]).when_color == Color::Black,
        forall|i: int| 0 <= i < 5 ==> (#[trigger] r@[i]).duration is None,
{
    let mut time_message = String::from_str(
        "Wait for NTP to sync your system time correctly, it is currently ",
    );
    time_message.append(now_label);
    time_message.append(".");
    let mut r: Vec<TaskSnapshot> = Vec::new();
    r.push(
        setup_task(
            "Configure WiFi credentials in config.rs",
            "Set the WIFI_SSID and WIFI_PASSWORD values in src/config.rs.".to_owned(),
            wifi_configured,
            wifi_configured,
        ),
    );
    r.push(
        setup_task(
            "Configure Todoist API key in config.rs",
            "Set the TODOIST_API_KEY value in src/config.rs.".to_owned(),
            !todoist_configured,
            todoist_configured,
        ),
    );
    r.push(
        setup_task(
            "Connect to WiFi network",
            "Make sure that your WiFi name and password are correct.".to_owned(),
            wifi_connected,
            wifi_connected,
        ),
    );
    r.push(setup_task("Synchronize system time", time_message, time_synced, time_synced));
    r.push(
        setup_task(
            "Synchronize Todoist tasks",
            "Make sure that your Todoist API key is correctly configured.".to_owned(),
            true,
            false,
        ),
    );
    proof {
        assert(r@[4].when@ == "todo"@);
    }
    r
}

} // verus!
