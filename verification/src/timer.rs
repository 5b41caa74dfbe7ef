//! Decisions of the transition timer actor: which timer is armed after each
//! command, and which event an elapsed timer produces. Reading the clock and
//! sleeping until the deadline stay with the actor.

use vstd::prelude::*;

use crate::domain::{ControllerEvent, TimerCommand};

verus! {

/// Timer ticks per millisecond. The firmware's clock runs at 1 MHz: that is
/// embassy-time's default tick rate and the one embassy-rp's time driver
/// selects.
pub const TICKS_PER_MILLI: u64 = 1000;

/// The number of timer ticks in `millis` milliseconds.
pub open spec fn millis_as_ticks(millis: u64) -> u64 {
    (millis * TICKS_PER_MILLI) as u64
}

/// Calls `embassy_time::Duration::from_millis(millis).as_ticks()`. The crate
/// computes `ceil(millis * TICK_HZ / 1000)`; at the 1 MHz tick rate this
/// firmware is built with, that is `millis * 1000` exactly. `millis` stays
/// within `u32`, so the product fits and the crate's multiplication cannot
/// overflow.
#[verifier::external_body]
fn duration_ticks(millis: u64) -> (ticks: u64)
    requires
        millis <= u32::MAX,
    ensures
        ticks == millis * TICKS_PER_MILLI,
        ticks == millis_as_ticks(millis),
{
    embassy_time::Duration::from_millis(millis).as_ticks()
}

/// The armed timer: the transition generation it belongs to and the tick at
/// which it fires.
#[derive(Clone, Copy, Debug, PartialEq, Eq, Structural)]
pub struct ActiveTimer {
    pub generation: u32,
    pub deadline_ticks: u64,
}

/// The tick `duration_ms` after `now_ticks`, or `None` if it does not fit.
pub open spec fn deadline_after(now_ticks: u64, duration_ms: u32) -> Option<u64> {
    let sum = now_ticks + millis_as_ticks(duration_ms as u64);
    if sum <= u64::MAX {
        Some(sum as u64)
    } else {
        None
    }
}

/// The armed timer after `command` arrives at `now_ticks`, and whether the
/// command could be applied: a start replaces any armed timer, a cancel
/// disarms only the timer of its own generation.
pub open spec fn after_command(
    active: Option<ActiveTimer>,
    command: TimerCommand,
    now_ticks: u64,
) -> (Option<ActiveTimer>, bool) {
    match command {
        TimerCommand::Start { generation, duration_ms } => match deadline_after(
            now_ticks,
            duration_ms,
        ) {
            Some(deadline_ticks) => (Some(ActiveTimer { generation, deadline_ticks }), true),
            None => (active, false),
        },
        TimerCommand::Cancel { generation } => {
            if active matches Some(timer) && timer.generation == generation {
                (None, true)
            } else {
                (active, true)
            }
        },
    }
}

/// The tick `delay_ticks` after `now_ticks`, unless it overflows the clock.
pub fn deadline_from_ticks(now_ticks: u64, delay_ticks: u64) -> (d: Option<u64>)
    ensures
        d == (if now_ticks + delay_ticks <= u64::MAX {
            Some((now_ticks + delay_ticks) as u64)
        } else {
            None
        }),
{
    now_ticks.checked_add(delay_ticks)
}

/// The tick `duration_ms` after `now_ticks`, unless it overflows the clock.
pub fn start_deadline(now_ticks: u64, duration_ms: u32) -> (d: Option<u64>)
    ensures
        d == deadline_after(now_ticks, duration_ms),
{
    let ticks = duration_ticks(duration_ms as u64);
    deadline_from_ticks(now_ticks, ticks)
}

/// Apply one command that arrived at `now_ticks`. Returns `false`, leaving the
/// timer as it was, only for a start whose deadline overflows the clock.
pub fn apply_command(active: &mut Option<ActiveTimer>, command: TimerCommand, now_ticks: u64) -> (ok:
    bool)
    ensures
        (*final(active), ok) == after_command(*old(active), command, now_ticks),
{
    match command {
        TimerCommand::Start { generation, duration_ms } => match start_deadline(
            now_ticks,
            duration_ms,
        ) {
            Some(deadline_ticks) => {
                *active = Some(ActiveTimer { generation, deadline_ticks });
                true
            },
            None => false,
        },
        TimerCommand::Cancel { generation } => {
            let matches_generation = match active {
                Some(timer) => timer.generation == generation,
                None => false,
            };
            if matches_generation {
                *active = None;
            }
            true
        },
    }
}

/// The armed timer reached its deadline: disarm it and name the transition
/// generation that elapsed.
pub fn expire(active: &mut Option<ActiveTimer>) -> (ev: Option<ControllerEvent>)
    ensures
        *final(active) == None::<ActiveTimer>,
        ev == (match *old(active) {
            Some(timer) => Some(ControllerEvent::TransitionElapsed { generation: timer.generation }),
            None => None,
        }),
{
    let ev = match active {
        Some(timer) => Some(ControllerEvent::TransitionElapsed { generation: timer.generation }),
        None => None,
    };
    *active = None;
    ev
}

/// A longer transition ends later: of two starts at the same tick whose
/// deadlines fit, the longer one fires no earlier, and a strictly longer one
/// strictly later.
pub proof fn lemma_longer_duration_ends_later(now_ticks: u64, shorter_ms: u32, longer_ms: u32)
    requires
        shorter_ms <= longer_ms,
        deadline_after(now_ticks, longer_ms) is Some,
    ensures
        deadline_after(now_ticks, shorter_ms) is Some,
        deadline_after(now_ticks, shorter_ms)->0 <= deadline_after(now_ticks, longer_ms)->0,
        shorter_ms < longer_ms ==> deadline_after(now_ticks, shorter_ms)->0 < deadline_after(
            now_ticks,
            longer_ms,
        )->0,
{
    assert(shorter_ms * 1000 <= longer_ms * 1000) by (nonlinear_arith)
        requires
            shorter_ms <= longer_ms,
    ;
    assert(shorter_ms < longer_ms ==> shorter_ms * 1000 < longer_ms * 1000) by (nonlinear_arith);
    assert(longer_ms * 1000 <= u32::MAX * 1000) by (nonlinear_arith)
        requires
            longer_ms <= u32::MAX,
    ;
}

/// A cancel meant for an older transition never disarms the timer of a newer
/// one; a cancel for the armed generation always does.
pub proof fn lemma_cancel_only_own_generation(
    timer: ActiveTimer,
    generation: u32,
    now_ticks: u64,
)
    ensures
        generation != timer.generation ==> after_command(
            Some(timer),
            TimerCommand::Cancel { generation },
            now_ticks,
        ) == (Some(timer), true),
        generation == timer.generation ==> after_command(
            Some(timer),
            TimerCommand::Cancel { generation },
            now_ticks,
        ) == (None::<ActiveTimer>, true),
{
}

/// A start always wins over whatever was armed before, when its deadline fits.
pub proof fn lemma_start_replaces(
    active: Option<ActiveTimer>,
    generation: u32,
    duration_ms: u32,
    now_ticks: u64,
)
    requires
        deadline_after(now_ticks, duration_ms) is Some,
    ensures
        after_command(active, TimerCommand::Start { generation, duration_ms }, now_ticks).0
            == Some(
            ActiveTimer {
                generation,
                deadline_ticks: deadline_after(now_ticks, duration_ms)->0,
            },
        ),
{
}

} // verus!
