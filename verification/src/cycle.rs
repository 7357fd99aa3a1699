use vstd::prelude::*;
use vstd::string::StringExecFns;

use crate::color::Color;
use crate::schedule::{spec_hour_minute, DateTimeParts};
use crate::text::string_from_chars;

verus! {

/// How long a fetch may keep failing, in seconds, before the failure is
/// surfaced on the panel.
pub const STALE_AFTER_SECONDS: i64 = 3600;

/// What one poll cycle decided: the reference instant of the last
/// successful update to carry forward, an optional header message with
/// its color, whether the error popup replaces the task list in this
/// cycle's render, how long to sleep, and whether the network link needs
/// reconnecting.
pub struct CycleDecision {
    pub last_update: DateTimeParts,
    pub header_message: Option<(String, Color)>,
    pub show_popup: bool,
    pub sleep_seconds: u32,
    pub reconnect: bool,
}

/// Decides one poll cycle from its inputs: offline cycles show the
/// offline notice, retry the link soon and change nothing else; a
/// successful fetch advances the update instant exactly when the list
/// changed and shows when the data was last fresh; a failed fetch is
/// tolerated quietly while the shown data is younger than the staleness
/// bound, and surfaces the error popup once it is older.
pub fn plan_cycle(
    online: bool,
    fetch_succeeded: bool,
    list_changed: bool,
    now: &DateTimeParts,
    last_update: &DateTimeParts,
) -> (r: CycleDecision)
    requires
        now.valid(),
        last_update.valid(),
    ensures
        !online ==> {
            &&& r.last_update == *last_update
            &&& match r.header_message {
                Some((m, c)) => m@ == "Offline"@ && c == Color::Red,
                None => false,
            }
            &&& !r.show_popup
            &&& r.sleep_seconds == 30
            &&& r.reconnect
        },
        online && fetch_succeeded ==> {
            &&& r.last_update == if list_changed {
                *now
            } else {
                *last_update
            }
            &&& match r.header_message {
                Some((m, c)) => m@ == "Updated at "@ + spec_hour_minute(r.last_update) && c
                    == Color::Green,
                None => false,
            }
            &&& !r.show_popup
            &&& r.sleep_seconds == 300
            &&& !r.reconnect
        },
        online && !fetch_succeeded && now.epoch - last_update.epoch < STALE_AFTER_SECONDS ==> {
            &&& r.last_update == *last_update
            &&& r.header_message is None
            &&& !r.show_popup
            &&& r.sleep_seconds == 300
            &&& !r.reconnect
        },
        online && !fetch_succeeded && now.epoch - last_update.epoch >= STALE_AFTER_SECONDS ==> {
            &&& r.last_update == *last_update
            &&& match r.header_message {
                Some((m, c)) => m@ == "Update failing consistently"@ && c == Color::Red,
                None => false,
            }
            &&& r.show_popup
            &&& r.sleep_seconds == 300
            &&& !r.reconnect
        },
{
    if !online {
        return CycleDecision {
            last_update: *last_update,
            header_message: Some((String::from_str("Offline"), Color::Red)),
            show_popup: false,
            sleep_seconds: 30,
            reconnect: true,
        };
    }
    if fetch_succeeded {
        let fresh = if list_changed {
            *now
        } else {
            *last_update
        };
        let mut message = String::from_str("Updated at ");
        message.append(string_from_chars(crate::schedule::hour_minute_chars(&fresh)).as_str());
        return CycleDecision {
            last_update: fresh,
            header_message: Some((message, Color::Green)),
            show_popup: false,
            sleep_seconds: 300,
            reconnect: false,
        };
    }
    if now.epoch - last_update.epoch < STALE_AFTER_SECONDS {
        CycleDecision {
            last_update: *last_update,
            header_message: None,
            show_popup: false,
            sleep_seconds: 300,
            reconnect: false,
        }
    } else {
        CycleDecision {
            last_update: *last_update,
            header_message: Some((String::from_str("Update failing consistently"), Color::Red)),
            show_popup: true,
            sleep_seconds: 300,
            reconnect: false,
        }
    }
}

} // verus!
