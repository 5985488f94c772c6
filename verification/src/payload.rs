use vstd::prelude::*;
use crate::settings::Settings;

verus! {

/// Diagnostic configuration echoed in outbound payloads when developer mode
/// is on.
#[derive(Debug, Clone, Copy, PartialEq, Eq, Structural)]
pub struct ConfigData {
    pub idle_timeout_mins: u64,
    pub auto_mode: bool,
}

/// The inner payload: local wall-clock time and date, the device identity
/// and the optional diagnostic configuration.
#[derive(Debug)]
pub struct AttendanceData {
    pub time: String,
    pub date: String,
    pub device_id: String,
    pub config: Option<ConfigData>,
}

/// The wire entity sent for each attendance event. Ephemeral: built for one
/// dispatch and never stored.
#[derive(Debug)]
pub struct AttendancePayload {
    pub event_type: String,
    pub user_id: String,
    pub payload: AttendanceData,
    pub timestamp: String,
}

/// Relies on chrono::Local::now and chrono's formatter: the current local
/// wall-clock time rendered as `HH:MM:SS`. The value depends on the clock;
/// nothing is promised of it.
#[verifier::external_body]
pub fn format_current_time() -> (r: String) {
    chrono::Local::now().format("%H:%M:%S").to_string()
}

/// Relies on chrono::Local::now and chrono's formatter: the current local
/// date rendered as `YYYY-MM-DD`. The value depends on the clock; nothing is
/// promised of it.
#[verifier::external_body]
pub fn format_current_date() -> (r: String) {
    chrono::Local::now().format("%Y-%m-%d").to_string()
}

/// Relies on chrono::Utc::now and DateTime::to_rfc3339: the current instant
/// as an ISO-8601 timestamp with offset. The value depends on the clock;
/// nothing is promised of it.
#[verifier::external_body]
fn iso_timestamp() -> (r: String) {
    chrono::Utc::now().to_rfc3339()
}

/// What a payload built for `event_type` under settings `s` looks like: the
/// event tag and the identity fields copied over, and the diagnostic
/// configuration present exactly in developer mode. The time, date and
/// timestamp fields come from the clock and are not pinned here.
pub open spec fn payload_matches(p: AttendancePayload, event_type: Seq<char>, s: Settings) -> bool {
    &&& p.event_type@ == event_type
    &&& p.user_id@ == s.username@
    &&& p.payload.device_id@ == s.device_name@
    &&& (if s.developer_mode {
        p.payload.config == Some(ConfigData {
            idle_timeout_mins: s.idle_timeout_mins,
            auto_mode: s.auto_mode,
        })
    } else {
        p.payload.config is None
    })
}

/// Build the wire payload for one attendance event from a settings snapshot
/// and the current clock readings.
pub fn create_attendance_payload(event_type: &str, settings: &Settings) -> (r: AttendancePayload)
    ensures
        payload_matches(r, event_type@, *settings),
{
    let config = if settings.developer_mode {
        Some(ConfigData {
            idle_timeout_mins: settings.idle_timeout_mins,
            auto_mode: settings.auto_mode,
        })
    } else {
        None
    };

    AttendancePayload {
        event_type: event_type.to_owned(),
        user_id: settings.username.clone(),
        payload: AttendanceData {
            time: format_current_time(),
            date: format_current_date(),
            device_id: settings.device_name.clone(),
            config,
        },
        timestamp: iso_timestamp(),
    }
}

} // verus!
