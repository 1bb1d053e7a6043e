use vstd::prelude::*;
use crate::act::{Act, classify_level, classified, held_act, level_code, FIRST_ACT};
use crate::watcher::{after_update, Pair, Watcher};

verus! {

/// The host timer's state, as the host reports it.
#[derive(Clone, Copy, PartialEq, Eq, Structural, Debug, Hash)]
pub enum TimerState {
    NotRunning,
    Running,
    Paused,
    Ended,
}

/// The game memory that one tick reads. A read that failed is 0.
#[derive(Clone, Copy, Debug)]
pub struct RawReads {
    pub demo_mode: u8,
    pub state: u8,
    pub score_tally_state: u8,
    pub level_id: u8,
    pub level_id_type: u8,
    pub timer_is_running: u8,
    pub bhp_good: u8,
    pub bhp_bad: u8,
    pub seconds: u8,
    pub minutes: u8,
    pub centisecs: u8,
    pub time_bonus: u32,
}

impl Default for RawReads {
    /// Every read failed.
    fn default() -> (r: Self)
        ensures
            r == (RawReads {
                demo_mode: 0,
                state: 0,
                score_tally_state: 0,
                level_id: 0,
                level_id_type: 0,
                timer_is_running: 0,
                bhp_good: 0,
                bhp_bad: 0,
                seconds: 0,
                minutes: 0,
                centisecs: 0,
                time_bonus: 0,
            }),
    {
        RawReads {
            demo_mode: 0,
            state: 0,
            score_tally_state: 0,
            level_id: 0,
            level_id_type: 0,
            timer_is_running: 0,
            bhp_good: 0,
            bhp_bad: 0,
            seconds: 0,
            minutes: 0,
            centisecs: 0,
            time_bonus: 0,
        }
    }
}

/// The boss health recorded outside the final boss fight.
pub const NO_BOSS_HEALTH: u8 = 0xFF;

/// The level code of the final boss fight on the way to the good ending.
pub const GOOD_ENDING_BOSS_CODE: u32 = 168;

/// The level code of the final boss fight on the way to the bad ending.
pub const BAD_ENDING_BOSS_CODE: u32 = 169;

/// The most that the centisecond counter can contribute, in milliseconds.
pub const MAX_CENTISECS_MS: i64 = 4250;

/// The most that the game clock can show, in milliseconds.
pub const MAX_IGT_MS: i64 = 15559250;

/// The whole state of the engine between ticks. Times are in milliseconds.
#[derive(Debug)]
pub struct Watchers {
    /// In-game time carried over the game clock's resets within a run.
    pub accumulated_igt: i64,
    /// The game clock's value just after its last reset.
    pub buffer_igt: i64,
    /// The centisecond counter's value when the run started, on builds whose
    /// counter is not cleared at the start of a run.
    pub igt_offset: i64,
    /// The time bonus when its count-down began, or 0.
    pub time_bonus_start_value: u32,
    pub demo_mode: Watcher<bool>,
    pub state: Watcher<u8>,
    pub time_bonus: Watcher<u32>,
    pub final_boss_health: Watcher<u8>,
    pub level_id: Watcher<Act>,
    pub timer_is_running: Watcher<bool>,
    pub igt: Watcher<i64>,
    pub centisecs: Watcher<i64>,
    pub timer_state: Watcher<TimerState>,
}

/// The centisecond counter, read as a 60-tick counter, in milliseconds,
/// truncated first to hundredths.
pub open spec fn centisecs_ms(raw: u8) -> int {
    (raw as int * 100 / 60) * 10
}

/// The game clock in milliseconds; the centiseconds count only on builds
/// whose counter is cleared at the start of a run.
pub open spec fn clock_ms(minutes: u8, seconds: u8, centisecs: u8, has_centisecs_bug: bool) -> int {
    minutes as int * 60000 + seconds as int * 1000 + if has_centisecs_bug {
        0
    } else {
        centisecs_ms(centisecs)
    }
}

/// The final boss's health for a tick on which no score tally shows.
pub open spec fn boss_health_for(code: u32, reads: RawReads) -> u8 {
    if code == GOOD_ENDING_BOSS_CODE {
        reads.bhp_good
    } else if code == BAD_ENDING_BOSS_CODE {
        reads.bhp_bad
    } else {
        NO_BOSS_HEALTH
    }
}

/// The in-game time of a tick: zero in demo mode (now or on the last tick) or
/// while the host timer stands; held while the game clock stands; else the
/// game clock.
pub open spec fn igt_for(
    demo: Pair<bool>,
    running: Pair<bool>,
    timer_state: TimerState,
    previous: Option<Pair<i64>>,
    reads: RawReads,
    has_centisecs_bug: bool,
) -> int {
    if demo.current || demo.old || timer_state == TimerState::NotRunning {
        0
    } else if !running.old && !running.current {
        match previous {
            Some(p) => p.current as int,
            None => 0,
        }
    } else {
        clock_ms(reads.minutes, reads.seconds, reads.centisecs, has_centisecs_bug)
    }
}

/// `x + y`, held at the largest `i64`.
pub open spec fn saturated(x: int, y: int) -> int {
    if x + y > i64::MAX {
        i64::MAX as int
    } else {
        x + y
    }
}

/// The time-bonus baseline after a tick: taken when the counter leaves zero,
/// cleared while it is zero, kept otherwise.
pub open spec fn bonus_baseline(bonus: Pair<u32>, baseline: u32) -> u32 {
    if bonus.old != bonus.current && bonus.old == 0 {
        bonus.current
    } else if bonus.current == 0 {
        0
    } else {
        baseline
    }
}

/// The engine after one tick in which the host timer was in `timer_state` and
/// the game memory read `reads`. The first tick only records the timer state.
pub open spec fn tick(w: Watchers, timer_state: TimerState, reads: RawReads, has_centisecs_bug: bool) -> Watchers {
    let timers = after_update(w.timer_state.pair, Some(timer_state));
    if w.timer_state.pair is None {
        Watchers { timer_state: Watcher { pair: timers }, ..w }
    } else {
        let timers = timers.unwrap();
        let demo = after_update(w.demo_mode.pair, Some(reads.demo_mode > 0)).unwrap();
        let running = after_update(w.timer_is_running.pair, Some(reads.timer_is_running > 0)).unwrap();
        let held = match w.level_id.pair {
            Some(p) => Some(p.current),
            None => None,
        };
        let code = level_code(reads.level_id_type, reads.level_id);
        let tallying = reads.score_tally_state != 0;
        let act = if tallying { held_act(held) } else { classified(code, held) };
        let boss = if tallying { NO_BOSS_HEALTH } else { boss_health_for(code, reads) };
        let centis = centisecs_ms(reads.centisecs) as i64;
        let new_igt = igt_for(demo, running, timer_state, w.igt.pair, reads, has_centisecs_bug) as i64;
        let igt = after_update(w.igt.pair, Some(new_igt)).unwrap();
        let stopped = timer_state == TimerState::NotRunning;
        let acc = if stopped { 0 } else { w.accumulated_igt as int };
        let buffer = if stopped { 0 } else { w.buffer_igt as int };
        let offset = if stopped { 0 } else { w.igt_offset as int };
        let rolled_back = igt.current < igt.old;
        let started = timers.old == TimerState::NotRunning && timers.current == TimerState::Running;
        let bonus = after_update(w.time_bonus.pair, Some(reads.time_bonus)).unwrap();
        Watchers {
            accumulated_igt: (if rolled_back { saturated(acc, igt.old - buffer) } else { acc }) as i64,
            buffer_igt: (if rolled_back { igt.current as int } else { buffer }) as i64,
            igt_offset: (if has_centisecs_bug && started { centis as int } else { offset }) as i64,
            time_bonus_start_value: bonus_baseline(bonus, w.time_bonus_start_value),
            demo_mode: Watcher { pair: Some(demo) },
            state: Watcher { pair: after_update(w.state.pair, Some(reads.state)) },
            time_bonus: Watcher { pair: Some(bonus) },
            final_boss_health: Watcher { pair: after_update(w.final_boss_health.pair, Some(boss)) },
            level_id: Watcher { pair: after_update(w.level_id.pair, Some(act)) },
            timer_is_running: Watcher { pair: Some(running) },
            igt: Watcher { pair: Some(igt) },
            centisecs: Watcher { pair: after_update(w.centisecs.pair, Some(centis)) },
            timer_state: Watcher { pair: Some(timers) },
        }
    }
}

impl Watchers {
    /// The engine before its first tick.
    pub open spec fn is_fresh(&self) -> bool {
        &&& self.accumulated_igt == 0
        &&& self.buffer_igt == 0
        &&& self.igt_offset == 0
        &&& self.time_bonus_start_value == 0
        &&& self.demo_mode.pair is None
        &&& self.state.pair is None
        &&& self.time_bonus.pair is None
        &&& self.final_boss_health.pair is None
        &&& self.level_id.pair is None
        &&& self.timer_is_running.pair is None
        &&& self.igt.pair is None
        &&& self.centisecs.pair is None
        &&& self.timer_state.pair is None
    }

    /// The bounds that every tick keeps: the times are within what the game
    /// clock can show, the buffer never exceeds the in-game time, and before
    /// the first tick no in-game time is seen and nothing is carried over.
    pub open spec fn wf(&self) -> bool {
        &&& 0 <= self.accumulated_igt
        &&& 0 <= self.igt_offset <= MAX_CENTISECS_MS
        &&& match self.igt.pair {
            Some(p) => {
                &&& 0 <= p.old <= MAX_IGT_MS
                &&& 0 <= p.current <= MAX_IGT_MS
                &&& 0 <= self.buffer_igt <= p.current
            },
            None => self.buffer_igt == 0,
        }
        &&& match self.centisecs.pair {
            Some(p) => 0 <= p.old <= MAX_CENTISECS_MS && 0 <= p.current <= MAX_CENTISECS_MS,
            None => true,
        }
        &&& self.timer_state.pair is None ==> {
            &&& self.igt.pair is None
            &&& self.accumulated_igt == 0
            &&& self.buffer_igt == 0
            &&& self.igt_offset == 0
        }
    }

    /// The engine before its first tick.
    pub fn new() -> (r: Self)
        ensures
            r.is_fresh(),
            r.wf(),
    {
        Watchers {
            accumulated_igt: 0,
            buffer_igt: 0,
            igt_offset: 0,
            time_bonus_start_value: 0,
            demo_mode: Watcher::new(),
            state: Watcher::new(),
            time_bonus: Watcher::new(),
            final_boss_health: Watcher::new(),
            level_id: Watcher::new(),
            timer_is_running: Watcher::new(),
            igt: Watcher::new(),
            centisecs: Watcher::new(),
            timer_state: Watcher::new(),
        }
    }
}

impl Default for Watchers {
    /// The engine before its first tick.
    fn default() -> (r: Self)
        ensures
            r.is_fresh(),
            r.wf(),
    {
        Watchers::new()
    }
}

/// Every tick keeps the engine's bounds.
pub proof fn lemma_tick_keeps_wf(w: Watchers, timer_state: TimerState, reads: RawReads, has_centisecs_bug: bool)
    requires
        w.wf(),
    ensures
        tick(w, timer_state, reads, has_centisecs_bug).wf(),
{
}

/// The in-game time carried over resets never shrinks while the host timer
/// runs, is paused or has ended. A tick with the host timer stopped clears the
/// buffer and the offset, and carries over only the in-game time held before
/// the tick, which that tick brings to zero.
pub proof fn lemma_accumulated_igt_in_run(
    w: Watchers,
    timer_state: TimerState,
    reads: RawReads,
    has_centisecs_bug: bool,
)
    requires
        w.wf(),
    ensures
        timer_state != TimerState::NotRunning ==> tick(
            w,
            timer_state,
            reads,
            has_centisecs_bug,
        ).accumulated_igt >= w.accumulated_igt,
        timer_state == TimerState::NotRunning && w.timer_state.pair is Some ==> {
            let next = tick(w, timer_state, reads, has_centisecs_bug);
            &&& next.accumulated_igt == match w.igt.pair {
                Some(p) => p.current,
                None => 0,
            }
            &&& next.buffer_igt == 0
            &&& next.igt_offset == 0
            &&& next.igt.pair matches Some(p) && p.current == 0
        },
{
}

/// Two ticks in a row with the host timer stopped leave nothing carried over:
/// the accumulated time, the buffer and the offset are all zero.
pub proof fn lemma_stopped_timer_clears_carry_over(
    w: Watchers,
    first: RawReads,
    second: RawReads,
    has_centisecs_bug: bool,
)
    requires
        w.wf(),
    ensures
        ({
            let once = tick(w, TimerState::NotRunning, first, has_centisecs_bug);
            let twice = tick(once, TimerState::NotRunning, second, has_centisecs_bug);
            &&& twice.accumulated_igt == 0
            &&& twice.buffer_igt == 0
            &&& twice.igt_offset == 0
        }),
{
    let once = tick(w, TimerState::NotRunning, first, has_centisecs_bug);
    lemma_tick_keeps_wf(w, TimerState::NotRunning, first, has_centisecs_bug);
    lemma_accumulated_igt_in_run(w, TimerState::NotRunning, first, has_centisecs_bug);
    lemma_accumulated_igt_in_run(once, TimerState::NotRunning, second, has_centisecs_bug);
}

/// The centisecond counter in milliseconds.
fn centisecs_to_ms(raw: u8) -> (r: i64)
    ensures
        r == centisecs_ms(raw),
        0 <= r <= MAX_CENTISECS_MS,
{
    let hundredths: u64 = (raw as u64 * 100) / 60;
    (hundredths * 10) as i64
}

/// The game clock in milliseconds.
fn clock_to_ms(minutes: u8, seconds: u8, centisecs_ms: i64, has_centisecs_bug: bool) -> (r: i64)
    requires
        0 <= centisecs_ms <= MAX_CENTISECS_MS,
    ensures
        r == minutes as int * 60000 + seconds as int * 1000 + if has_centisecs_bug {
            0
        } else {
            centisecs_ms as int
        },
        0 <= r <= MAX_IGT_MS,
{
    let extra: i64 = if has_centisecs_bug { 0 } else { centisecs_ms };
    minutes as i64 * 60000 + seconds as i64 * 1000 + extra
}

/// Runs one tick of the engine: records the host timer's state and, from the
/// second tick on, what the game memory read, the act, the final boss's
/// health, the in-game time and the carry-overs that keep it across the
/// game clock's resets.
pub fn update_loop(
    reads: &RawReads,
    timer_state: TimerState,
    has_centisecs_bug: bool,
    watchers: &mut Watchers,
)
    requires
        old(watchers).wf(),
    ensures
        final(watchers).wf(),
        *final(watchers) == tick(*old(watchers), timer_state, *reads, has_centisecs_bug),
{
    let ghost before = *watchers;
    proof {
        lemma_tick_keeps_wf(before, timer_state, *reads, has_centisecs_bug);
    }
    let first_tick = watchers.timer_state.pair.is_none();
    let timers = watchers.timer_state.update_infallible(timer_state);
    if first_tick {
        return;
    }
    let demo = watchers.demo_mode.update_infallible(reads.demo_mode > 0);
    watchers.state.update_infallible(reads.state);
    let running = watchers.timer_is_running.update_infallible(reads.timer_is_running > 0);

    let held: Option<Act> = match &watchers.level_id.pair {
        Some(p) => Some(p.current),
        None => None,
    };
    if reads.score_tally_state == 0 {
        let code: u32 = reads.level_id_type as u32 * 100 + reads.level_id as u32;
        watchers.level_id.update_infallible(classify_level(code, held));
        let boss: u8 = if code == GOOD_ENDING_BOSS_CODE {
            reads.bhp_good
        } else if code == BAD_ENDING_BOSS_CODE {
            reads.bhp_bad
        } else {
            NO_BOSS_HEALTH
        };
        watchers.final_boss_health.update_infallible(boss);
    } else {
        let act = match held {
            Some(a) => a,
            None => FIRST_ACT,
        };
        watchers.level_id.update_infallible(act);
        watchers.final_boss_health.update_infallible(NO_BOSS_HEALTH);
    }

    let centis_ms = centisecs_to_ms(reads.centisecs);
    let centis = watchers.centisecs.update_infallible(centis_ms);

    let new_igt: i64 = if demo.current || demo.old || timer_state == TimerState::NotRunning {
        0
    } else if !running.old && !running.current {
        match &watchers.igt.pair {
            Some(p) => p.current,
            None => 0,
        }
    } else {
        clock_to_ms(reads.minutes, reads.seconds, centis_ms, has_centisecs_bug)
    };
    let igt = watchers.igt.update_infallible(new_igt);

    if timer_state == TimerState::NotRunning {
        watchers.accumulated_igt = 0;
        watchers.buffer_igt = 0;
        watchers.igt_offset = 0;
    }

    if igt.current < igt.old {
        let carried: i64 = igt.old - watchers.buffer_igt;
        watchers.accumulated_igt = if watchers.accumulated_igt > i64::MAX - carried {
            i64::MAX
        } else {
            watchers.accumulated_igt + carried
        };
        watchers.buffer_igt = igt.current;
    }

    if has_centisecs_bug && timers.old == TimerState::NotRunning && timers.current == TimerState::Running {
        watchers.igt_offset = centis.current;
    }

    let bonus = watchers.time_bonus.update_infallible(reads.time_bonus);
    if bonus.old != bonus.current && bonus.old == 0 {
        watchers.time_bonus_start_value = bonus.current;
    } else if bonus.current == 0 {
        watchers.time_bonus_start_value = 0;
    }
}

} // verus!
