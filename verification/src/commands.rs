use vstd::prelude::*;
use crate::state::{AppState, AttendanceStatus, state_invariant};
use crate::settings::Settings;
use crate::payload::{AttendancePayload, create_attendance_payload, payload_matches};

verus! {

/// Whether a manual event type names a check-in. Any other event type is
/// treated as a check-out, as the manual path always has.
fn is_check_in(event_type: &str) -> (r: bool)
    ensures
        r == (event_type@ == "check-in"@),
{
    let lhs: String = event_type.to_owned();
    let rhs: String = "check-in".to_owned();
    lhs == rhs
}

/// The state after a manual attendance event: a manual check-in checks the
/// user in and clears the manual-override flag; anything else checks the
/// user out and sets it. Settings and the activity instant are untouched.
pub open spec fn manual_next(s: AppState, check_in: bool) -> AppState {
    AppState {
        status: if check_in {
            AttendanceStatus::CheckedIn
        } else {
            AttendanceStatus::CheckedOut
        },
        last_activity: s.last_activity,
        settings: s.settings,
        manual_checkout: !check_in,
    }
}

/// Manual transition command: applies the manual policy to the state and
/// builds the payload for the event. Dispatching the payload — and, unlike
/// the automatic path, surfacing a dispatch failure to the caller — is the
/// shell's part, as is the change notification emitted regardless of the
/// dispatch outcome.
pub fn send_attendance_event(state: &mut AppState, event_type: &str) -> (p: AttendancePayload)
    ensures
        *final(state) == manual_next(*old(state), event_type@ == "check-in"@),
        payload_matches(p, event_type@, old(state).settings),
        state_invariant(*final(state)),
{
    let check_in = is_check_in(event_type);
    if check_in {
        state.manual_checkout = false;
        state.status = AttendanceStatus::CheckedIn;
    } else {
        state.manual_checkout = true;
        state.status = AttendanceStatus::CheckedOut;
    }
    create_attendance_payload(event_type, &state.settings)
}

/// The current status as its wire word.
pub fn get_attendance_status(state: &AppState) -> (r: String)
    ensures
        state.status == AttendanceStatus::CheckedIn ==> r@ == "checked-in"@,
        state.status == AttendanceStatus::CheckedOut ==> r@ == "checked-out"@,
{
    match state.status {
        AttendanceStatus::CheckedIn => "checked-in".to_owned(),
        AttendanceStatus::CheckedOut => "checked-out".to_owned(),
    }
}

/// A copy of the current configuration snapshot.
pub fn get_app_config(state: &AppState) -> (r: Settings)
    ensures
        r == state.settings,
{
    state.settings.clone()
}

/// Replace the in-memory settings wholesale. Persisting them to the settings
/// store is the shell's part; a persistence failure surfaces to the caller
/// but does not revert the in-memory value.
pub fn save_settings(state: &mut AppState, new_settings: Settings)
    ensures
        final(state).settings == new_settings,
        final(state).status == old(state).status,
        final(state).manual_checkout == old(state).manual_checkout,
        final(state).last_activity == old(state).last_activity,
{
    state.settings = new_settings;
}

} // verus!
