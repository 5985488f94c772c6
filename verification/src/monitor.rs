use vstd::prelude::*;
use crate::state::{AppState, AttendanceStatus, state_invariant};
use crate::payload::{AttendancePayload, create_attendance_payload, payload_matches};

verus! {

/// The idle threshold in seconds for a timeout configured in minutes.
pub open spec fn idle_timeout_secs(idle_timeout_mins: u64) -> int {
    idle_timeout_mins * 60
}

/// Whether an observed idle duration (in seconds) reaches the configured
/// threshold. The boundary counts as idle: the comparison is
/// greater-or-equal, not greater-than.
pub open spec fn idle_reached(idle_secs: u64, idle_timeout_mins: u64) -> bool {
    idle_secs >= idle_timeout_secs(idle_timeout_mins)
}

/// A tick performs an automatic check-out exactly when automatic mode is on,
/// the sampler reported a duration at or past the threshold, and the user is
/// currently checked in.
pub open spec fn auto_checkout_fires(s: AppState, idle: Option<u64>) -> bool {
    &&& s.settings.auto_mode
    &&& idle matches Some(d) && idle_reached(d, s.settings.idle_timeout_mins)
    &&& s.status == AttendanceStatus::CheckedIn
}

/// A tick performs an automatic check-in exactly when automatic mode is on,
/// the sampler reported a sub-threshold duration, the user is checked out,
/// and the check-out was not operator-initiated.
pub open spec fn auto_checkin_fires(s: AppState, idle: Option<u64>) -> bool {
    &&& s.settings.auto_mode
    &&& idle matches Some(d) && !idle_reached(d, s.settings.idle_timeout_mins)
    &&& s.status == AttendanceStatus::CheckedOut
    &&& !s.manual_checkout
}

/// Whether the activity heartbeat is due: more than 60 seconds have elapsed
/// since the last recorded activity instant.
pub open spec fn heartbeat_due(last_activity: u64, now: u64) -> bool {
    now > last_activity + 60
}

/// A tick emits the activity heartbeat exactly when automatic mode is on,
/// the sampler reported the user as active (sub-threshold idle), and the
/// heartbeat is due.
pub open spec fn heartbeat_fires(s: AppState, idle: Option<u64>, now: u64) -> bool {
    &&& s.settings.auto_mode
    &&& idle matches Some(d) && !idle_reached(d, s.settings.idle_timeout_mins)
    &&& heartbeat_due(s.last_activity, now)
}

/// The state after one tick of the monitor loop given the sampled idle
/// duration (`None` where the sampler was unavailable) and the current
/// instant. Ticks never touch the settings, and automatic transitions never
/// touch the manual-override flag.
pub open spec fn tick_next(s: AppState, idle: Option<u64>, now: u64) -> AppState {
    if !s.settings.auto_mode {
        s
    } else {
        match idle {
            None => s,
            Some(d) => {
                if idle_reached(d, s.settings.idle_timeout_mins) {
                    if s.status == AttendanceStatus::CheckedIn {
                        AppState {
                            status: AttendanceStatus::CheckedOut,
                            last_activity: s.last_activity,
                            settings: s.settings,
                            manual_checkout: s.manual_checkout,
                        }
                    } else {
                        s
                    }
                } else {
                    AppState {
                        status: if s.status == AttendanceStatus::CheckedOut
                            && !s.manual_checkout {
                            AttendanceStatus::CheckedIn
                        } else {
                            s.status
                        },
                        last_activity: now,
                        settings: s.settings,
                        manual_checkout: s.manual_checkout,
                    }
                }
            },
        }
    }
}

/// What one tick leaves for the surrounding shell to perform: at most one
/// payload to dispatch (each dispatch comes with its status-change
/// notification), and possibly the activity heartbeat. Dispatch failures do
/// not flow back into the state: the transition is already committed.
pub struct TickEffect {
    pub dispatch: Option<AttendancePayload>,
    pub heartbeat: bool,
}

/// One tick of the monitor loop: applies the transition policy to the state
/// and reports the effects the shell still has to perform.
pub fn monitor_tick(state: &mut AppState, idle: Option<u64>, now: u64) -> (effect: TickEffect)
    ensures
        *final(state) == tick_next(*old(state), idle, now),
        effect.dispatch is Some <==> auto_checkout_fires(*old(state), idle)
            || auto_checkin_fires(*old(state), idle),
        effect.dispatch matches Some(p) ==> payload_matches(
            p,
            if auto_checkout_fires(*old(state), idle) { "check-out"@ } else { "check-in"@ },
            old(state).settings,
        ),
        effect.heartbeat == heartbeat_fires(*old(state), idle, now),
        // Without automatic mode a tick changes nothing and dispatches nothing.
        !old(state).settings.auto_mode ==> *final(state) == *old(state)
            && effect.dispatch is None && !effect.heartbeat,
        // Over-threshold ticks while already checked out are no-ops: the
        // check-out branch only fires on a transition, never as a
        // re-assertion of the current state.
        (idle matches Some(d) && old(state).settings.auto_mode
            && idle_reached(d, old(state).settings.idle_timeout_mins)
            && old(state).status == AttendanceStatus::CheckedOut)
            ==> *final(state) == *old(state) && effect.dispatch is None,
        state_invariant(*old(state)) ==> state_invariant(*final(state)),
{
    if !state.settings.auto_mode {
        return TickEffect { dispatch: None, heartbeat: false };
    }
    let d: u64 = match idle {
        None => {
            return TickEffect { dispatch: None, heartbeat: false };
        },
        Some(d) => d,
    };
    if d as u128 >= (state.settings.idle_timeout_mins as u128) * 60 {
        if state.status == AttendanceStatus::CheckedIn {
            state.status = AttendanceStatus::CheckedOut;
            let payload = create_attendance_payload("check-out", &state.settings);
            TickEffect { dispatch: Some(payload), heartbeat: false }
        } else {
            TickEffect { dispatch: None, heartbeat: false }
        }
    } else {
        let mut dispatch: Option<AttendancePayload> = None;
        if state.status == AttendanceStatus::CheckedOut && !state.manual_checkout {
            state.status = AttendanceStatus::CheckedIn;
            dispatch = Some(create_attendance_payload("check-in", &state.settings));
        }
        let heartbeat = now as u128 > state.last_activity as u128 + 60;
        state.last_activity = now;
        TickEffect { dispatch, heartbeat }
    }
}

/// One tick's input to the monitor loop: the sampled idle duration (`None`
/// where the sampler was unavailable) and the current instant.
pub struct TickInput {
    pub idle: Option<u64>,
    pub now: u64,
}

/// The state after a whole sequence of monitor ticks.
pub open spec fn run_ticks(s: AppState, inputs: Seq<TickInput>) -> AppState
    decreases inputs.len(),
{
    if inputs.len() == 0 {
        s
    } else {
        run_ticks(tick_next(s, inputs[0].idle, inputs[0].now), inputs.drop_first())
    }
}

/// A manual check-out is sticky: once the user is checked out with the
/// manual-override flag set, no sequence of monitor ticks — whatever idle
/// durations the sampler reports — checks the user back in or clears the
/// flag. Only a manual check-in clears it.
pub proof fn lemma_manual_checkout_sticky(s: AppState, inputs: Seq<TickInput>)
    requires
        s.status == AttendanceStatus::CheckedOut,
        s.manual_checkout,
    ensures
        run_ticks(s, inputs).status == AttendanceStatus::CheckedOut,
        run_ticks(s, inputs).manual_checkout,
    decreases inputs.len(),
{
    if inputs.len() > 0 {
        let s1 = tick_next(s, inputs[0].idle, inputs[0].now);
        assert(s1.status == AttendanceStatus::CheckedOut && s1.manual_checkout);
        lemma_manual_checkout_sticky(s1, inputs.drop_first());
    }
}

/// The monitor loop keeps the state invariant: if the manual-override flag
/// is set only while checked out, that still holds after any sequence of
/// ticks.
pub proof fn lemma_ticks_preserve_invariant(s: AppState, inputs: Seq<TickInput>)
    requires
        state_invariant(s),
    ensures
        state_invariant(run_ticks(s, inputs)),
    decreases inputs.len(),
{
    if inputs.len() > 0 {
        let s1 = tick_next(s, inputs[0].idle, inputs[0].now);
        assert(state_invariant(s1));
        lemma_ticks_preserve_invariant(s1, inputs.drop_first());
    }
}

/// Without automatic mode the monitor loop is inert: no sequence of ticks
/// changes the state at all — in particular, the status never changes.
pub proof fn lemma_auto_mode_off_inert(s: AppState, inputs: Seq<TickInput>)
    requires
        !s.settings.auto_mode,
    ensures
        run_ticks(s, inputs) == s,
    decreases inputs.len(),
{
    if inputs.len() > 0 {
        assert(tick_next(s, inputs[0].idle, inputs[0].now) == s);
        lemma_auto_mode_off_inert(s, inputs.drop_first());
    }
}

} // verus!
