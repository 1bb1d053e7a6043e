use vstd::prelude::*;
use crate::act::{next_act, act_after, Act};
use crate::engine::{tick, RawReads, TimerState, Watchers};
use crate::settings::Settings;

verus! {

/// The raw state's value when the game leaves the main menu for a new game.
pub const STATE_BEFORE_START: u8 = 6;

/// The raw state's value once a new game has begun.
pub const STATE_STARTED: u8 = 7;

/// The raw state's value that sends the game back to the main menu.
pub const STATE_RESET: u8 = 5;

/// Whether the act now held is the main menu.
pub open spec fn in_main_menu(w: &Watchers) -> bool {
    w.level_id.pair matches Some(p) && p.current == Act::MainMenu
}

/// Start: auto start is on, the game is in the main menu, and the raw state
/// went from 6 to 7 on this tick.
pub open spec fn start_spec(w: &Watchers, settings: &Settings) -> bool {
    &&& settings.start
    &&& in_main_menu(w)
    &&& w.state.pair matches Some(p) && p.old == STATE_BEFORE_START && p.current == STATE_STARTED
}

/// Reset: auto reset is on, the game is in the main menu, and the raw state
/// changed to 5 on this tick.
pub open spec fn reset_spec(w: &Watchers, settings: &Settings) -> bool {
    &&& settings.reset
    &&& in_main_menu(w)
    &&& w.state.pair matches Some(p) && p.old != p.current && p.current == STATE_RESET
}

/// The end of a run, under the alternate timing rules: the game went to the
/// credits or the main menu from the last act while the final boss was beaten
/// and the in-game time was running.
pub open spec fn finished_by_real_time(w: &Watchers) -> bool {
    &&& w.level_id.pair matches Some(p) && (p.current == Act::Credits || p.current
        == Act::MainMenu)
    &&& w.final_boss_health.pair matches Some(b) && b.old == 0
    &&& w.igt.pair matches Some(i) && i.old != 0
}

/// The end of a run, under the default rules: the final boss's health went
/// from 1 to 0 while the in-game time is not zero.
pub open spec fn finished_by_game_time(w: &Watchers) -> bool {
    &&& w.final_boss_health.pair matches Some(b) && b.old == 1 && b.current == 0
    &&& w.igt.pair matches Some(i) && i.current != 0
}

/// Split: the act moved one step along the run with the toggle of the act
/// left on, or, from the last act with its toggle on, the run ended by the
/// rules in force.
pub open spec fn split_spec(w: &Watchers, settings: &Settings) -> bool {
    match w.level_id.pair {
        None => false,
        Some(p) => if p.old == Act::MetallicMadnessAct3 {
            settings.metallic_madness_3 && if settings.rta_tb {
                finished_by_real_time(w)
            } else {
                finished_by_game_time(w)
            }
        } else {
            settings.split_enabled_spec(p.old) && next_act(p.old) == Some(p.current)
        },
    }
}

/// Loading, under the alternate timing rules: a time-bonus count-down was seen
/// to begin and the counter has moved off its first value. Under the default
/// rules the timer's game time is always held paused and set by `game_time`.
pub open spec fn loading_spec(w: &Watchers, settings: &Settings) -> bool {
    if settings.rta_tb {
        w.time_bonus_start_value != 0 && (w.time_bonus.pair matches Some(p) && p.current
            != w.time_bonus_start_value)
    } else {
        true
    }
}

/// The game time of a run: the in-game time with what was carried over its
/// resets, less the start-of-run offset, plus the centisecond counter on
/// builds whose counter is not cleared at the start of a run.
pub open spec fn game_time_ms(w: &Watchers, has_centisecs_bug: bool) -> int {
    w.igt.pair.unwrap().current + w.accumulated_igt - w.buffer_igt - w.igt_offset + if has_centisecs_bug {
        w.centisecs.pair.unwrap().current as int
    } else {
        0
    }
}

/// `x`, held at the largest `i64`.
pub open spec fn capped(x: int) -> int {
    if x > i64::MAX {
        i64::MAX as int
    } else {
        x
    }
}

/// The game time to show: none under the alternate timing rules or before the
/// engine has seen the in-game time; otherwise `game_time_ms`, held at the
/// largest `i64`.
pub open spec fn game_time_spec(w: &Watchers, settings: &Settings, has_centisecs_bug: bool) -> Option<i64> {
    if settings.rta_tb || w.igt.pair is None || w.centisecs.pair is None {
        None
    } else {
        Some(capped(game_time_ms(w, has_centisecs_bug)) as i64)
    }
}

/// On a fresh run the game time is what the game clock shows: from a fresh
/// engine, a tick with the host timer stopped and then a tick with it running,
/// the game clock running and showing `minutes` and `seconds` with no
/// centiseconds, out of demo mode, give exactly that time, since nothing is
/// carried over and no offset is taken.
pub proof fn lemma_fresh_run_game_time(
    w: Watchers,
    first: RawReads,
    reads: RawReads,
    settings: Settings,
    has_centisecs_bug: bool,
)
    requires
        w.is_fresh(),
        !settings.rta_tb,
        reads.demo_mode == 0,
        reads.timer_is_running > 0,
        reads.centisecs == 0,
    ensures
        ({
            let once = tick(w, TimerState::NotRunning, first, has_centisecs_bug);
            let twice = tick(once, TimerState::Running, reads, has_centisecs_bug);
            game_time_spec(&twice, &settings, has_centisecs_bug) == Some(
                (reads.minutes * 60000 + reads.seconds * 1000) as i64,
            )
        }),
{
}

/// Whether to start the timer on this tick.
pub fn start(watchers: &Watchers, settings: &Settings) -> (r: bool)
    ensures
        r == start_spec(watchers, settings),
{
    if !settings.start {
        return false;
    }
    let menu = match &watchers.level_id.pair {
        Some(p) => p.current == Act::MainMenu,
        None => false,
    };
    menu && match &watchers.state.pair {
        Some(p) => p.changed_from_to(&STATE_BEFORE_START, &STATE_STARTED),
        None => false,
    }
}

/// Whether to reset the timer on this tick.
pub fn reset(watchers: &Watchers, settings: &Settings) -> (r: bool)
    ensures
        r == reset_spec(watchers, settings),
{
    if !settings.reset {
        return false;
    }
    let menu = match &watchers.level_id.pair {
        Some(p) => p.current == Act::MainMenu,
        None => false,
    };
    menu && match &watchers.state.pair {
        Some(p) => p.changed_to(&STATE_RESET),
        None => false,
    }
}

/// Whether to split on this tick.
pub fn split(watchers: &Watchers, settings: &Settings) -> (r: bool)
    ensures
        r == split_spec(watchers, settings),
{
    let act = match &watchers.level_id.pair {
        Some(p) => p,
        None => {
            return false;
        },
    };
    if act.old == Act::MetallicMadnessAct3 {
        if !settings.metallic_madness_3 {
            return false;
        }
        if settings.rta_tb {
            let left = act.current == Act::Credits || act.current == Act::MainMenu;
            let beaten = match &watchers.final_boss_health.pair {
                Some(b) => b.old == 0,
                None => false,
            };
            let timed = match &watchers.igt.pair {
                Some(i) => i.old != 0,
                None => false,
            };
            left && beaten && timed
        } else {
            let beaten = match &watchers.final_boss_health.pair {
                Some(b) => b.changed_from_to(&1, &0),
                None => false,
            };
            let timed = match &watchers.igt.pair {
                Some(i) => i.current != 0,
                None => false,
            };
            beaten && timed
        }
    } else {
        settings.split_enabled(act.old) && match act_after(act.old) {
            Some(next) => next == act.current,
            None => false,
        }
    }
}

/// Whether the timer's game time should stand still on this tick.
pub fn is_loading(watchers: &Watchers, settings: &Settings) -> (r: Option<bool>)
    ensures
        r == Some(loading_spec(watchers, settings)),
{
    if settings.rta_tb {
        let moved = match &watchers.time_bonus.pair {
            Some(p) => p.current != watchers.time_bonus_start_value,
            None => false,
        };
        Some(watchers.time_bonus_start_value != 0 && moved)
    } else {
        Some(true)
    }
}

/// The game time to show on this tick, in milliseconds (see `game_time_spec`).
pub fn game_time(watchers: &Watchers, settings: &Settings, has_centisecs_bug: bool) -> (r: Option<i64>)
    requires
        watchers.wf(),
    ensures
        r == game_time_spec(watchers, settings, has_centisecs_bug),
{
    if settings.rta_tb {
        return None;
    }
    let (igt, centis) = match (&watchers.igt.pair, &watchers.centisecs.pair) {
        (Some(i), Some(c)) => (i.current, c.current),
        _ => {
            return None;
        },
    };
    let extra: i64 = if has_centisecs_bug { centis } else { 0 };
    let within_run: i64 = igt - watchers.buffer_igt - watchers.igt_offset + extra;
    if within_run > 0 && watchers.accumulated_igt > i64::MAX - within_run {
        Some(i64::MAX)
    } else {
        Some(watchers.accumulated_igt + within_run)
    }
}

} // verus!
