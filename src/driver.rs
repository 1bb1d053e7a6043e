use vstd::prelude::*;
use crate::decide::{
    game_time, game_time_spec, is_loading, loading_spec, reset, reset_spec, split, split_spec, start,
    start_spec,
};
use crate::engine::{TimerState, Watchers};
use crate::settings::Settings;

verus! {

/// A command for the host timer that ends or advances a run.
#[derive(Clone, Copy, PartialEq, Eq, Structural, Debug, Hash)]
pub enum TimerCommand {
    Reset,
    Split,
}

/// What to tell the host timer on a tick of a run in progress.
#[derive(Clone, Copy, Debug)]
pub struct TickPlan {
    /// Pause (`true`) or resume (`false`) the timer's game time.
    pub loading: Option<bool>,
    /// Set the timer's game time to this many milliseconds.
    pub game_time: Option<i64>,
    /// Reset or split.
    pub command: Option<TimerCommand>,
}

/// What a tick tells the host timer while it is in `timer_state`: for a run
/// running or paused, whether game time stands, the game time, and a reset,
/// or else a split; for any other state, nothing.
pub open spec fn tick_plan_spec(
    timer_state: TimerState,
    w: &Watchers,
    settings: &Settings,
    has_centisecs_bug: bool,
) -> TickPlan {
    if timer_state == TimerState::Running || timer_state == TimerState::Paused {
        TickPlan {
            loading: Some(loading_spec(w, settings)),
            game_time: game_time_spec(w, settings, has_centisecs_bug),
            command: if reset_spec(w, settings) {
                Some(TimerCommand::Reset)
            } else if split_spec(w, settings) {
                Some(TimerCommand::Split)
            } else {
                None
            },
        }
    } else {
        TickPlan { loading: None, game_time: None, command: None }
    }
}

/// Decides what to tell the host timer, after the engine's update, while the
/// timer is in `timer_state`. A reset is never followed by a split on the
/// same tick.
pub fn plan_tick(
    timer_state: TimerState,
    watchers: &Watchers,
    settings: &Settings,
    has_centisecs_bug: bool,
) -> (r: TickPlan)
    requires
        watchers.wf(),
    ensures
        r == tick_plan_spec(timer_state, watchers, settings, has_centisecs_bug),
{
    if timer_state == TimerState::Running || timer_state == TimerState::Paused {
        let loading = is_loading(watchers, settings);
        let time = game_time(watchers, settings, has_centisecs_bug);
        let command = if reset(watchers, settings) {
            Some(TimerCommand::Reset)
        } else if split(watchers, settings) {
            Some(TimerCommand::Split)
        } else {
            None
        };
        TickPlan { loading, game_time: time, command }
    } else {
        TickPlan { loading: None, game_time: None, command: None }
    }
}

/// Decides whether to start a run, once the commands of `plan_tick` have been
/// carried out and the host timer is in `timer_state`. `Some(loading)` means:
/// start the timer, pause its game time, then pause (`true`) or resume
/// (`false`) it by `loading`.
pub fn plan_start(timer_state: TimerState, watchers: &Watchers, settings: &Settings) -> (r: Option<bool>)
    ensures
        r == if timer_state == TimerState::NotRunning && start_spec(watchers, settings) {
            Some(loading_spec(watchers, settings))
        } else {
            None
        },
{
    if timer_state == TimerState::NotRunning && start(watchers, settings) {
        is_loading(watchers, settings)
    } else {
        None
    }
}

} // verus!
