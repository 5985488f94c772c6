use vstd::prelude::*;
use crate::settings::Settings;

verus! {

/// The two-state attendance status. The initial value is `CheckedOut`.
#[derive(Debug, Clone, Copy, PartialEq, Eq, Structural)]
pub enum AttendanceStatus {
    CheckedIn,
    CheckedOut,
}

impl Default for AttendanceStatus {
    fn default() -> (r: Self)
        ensures
            r == AttendanceStatus::CheckedOut,
    {
        AttendanceStatus::CheckedOut
    }
}

/// The process-wide mutable state: the attendance status, the configuration
/// snapshot, the manual-override flag and the instant (in seconds of a
/// monotonic clock) at which the loop last observed the user as non-idle.
///
/// `manual_checkout` is set exactly by a manual check-out and cleared exactly
/// by a manual check-in; while it is set, the monitor loop never checks the
/// user back in automatically.
#[derive(Debug)]
pub struct AppState {
    pub status: AttendanceStatus,
    pub last_activity: u64,
    pub settings: Settings,
    pub manual_checkout: bool,
}

/// The invariant of the attendance state: the manual-override flag is set
/// only while the user is checked out. It is established at startup, kept by
/// every monitor tick, and re-established by every manual transition.
pub open spec fn state_invariant(s: AppState) -> bool {
    s.manual_checkout ==> s.status == AttendanceStatus::CheckedOut
}

impl Default for AppState {
    fn default() -> (r: Self)
        ensures
            r.status == AttendanceStatus::CheckedOut,
            !r.manual_checkout,
            r.last_activity == 0,
            crate::settings::default_config(r.settings),
            state_invariant(r),
    {
        AppState {
            status: AttendanceStatus::CheckedOut,
            last_activity: 0,
            settings: Settings::default(),
            manual_checkout: false,
        }
    }
}

} // verus!
