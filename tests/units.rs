use soniccd_autosplitter::act::{act_after, act_from_code, classify_level, Act};
use soniccd_autosplitter::driver::{plan_start, plan_tick, TimerCommand};
use soniccd_autosplitter::engine::{update_loop, RawReads, TimerState, Watchers};
use soniccd_autosplitter::settings::Settings;
use soniccd_autosplitter::version::{detect_build, Build, GameVersion, SignatureMatches};
use soniccd_autosplitter::watcher::{Pair, Watcher};

#[test]
fn watcher_keeps_the_last_two_values() {
    let mut w: Watcher<u8> = Watcher::new();
    assert!(w.update(None).is_none());
    let p = w.update_infallible(3);
    assert_eq!((p.old, p.current), (3, 3));
    let p = w.update(Some(4)).unwrap();
    assert_eq!((p.old, p.current), (3, 4));
    let p = w.update(None).unwrap();
    assert_eq!((p.old, p.current), (3, 4));
    let p = w.update_infallible(9);
    assert_eq!((p.old, p.current), (4, 9));
    let held = w.pair.as_ref().unwrap();
    assert_eq!((held.old, held.current), (4, 9));
}

#[test]
fn pair_queries() {
    let p = Pair { old: 6u8, current: 7u8 };
    assert!(p.changed());
    assert!(p.changed_from(&6));
    assert!(!p.changed_from(&7));
    assert!(p.changed_to(&7));
    assert!(!p.changed_to(&6));
    assert!(p.changed_from_to(&6, &7));
    assert!(!p.changed_from_to(&7, &6));
    assert!(p.increased());
    assert!(!p.decreased());
    let q = Pair { old: 5u32, current: 5u32 };
    assert!(!q.changed());
    assert!(!q.changed_to(&5));
    assert!(q.changed_from_to(&5, &5));
    assert!(!q.increased());
    assert!(!q.decreased());
    let r = Pair { old: 90000i64, current: 5000i64 };
    assert!(r.decreased());
    assert!(!r.increased());
}

#[test]
fn level_code_table() {
    assert_eq!(act_from_code(0), Some(Act::TitleScreen));
    assert_eq!(act_from_code(1), Some(Act::MainMenu));
    assert_eq!(act_from_code(2), Some(Act::TimeAttack));
    assert_eq!(act_from_code(8), Some(Act::Credits));
    for code in [3u32, 4, 7, 9, 50, 99, 170, 200, 25755, u32::MAX] {
        assert_eq!(act_from_code(code), None);
    }
    let zones = [
        [Act::PalmtreePanicAct1, Act::PalmtreePanicAct2, Act::PalmtreePanicAct3],
        [Act::CollisionChaosAct1, Act::CollisionChaosAct2, Act::CollisionChaosAct3],
        [Act::TidalTempestAct1, Act::TidalTempestAct2, Act::TidalTempestAct3],
        [Act::QuartzQuadrantAct1, Act::QuartzQuadrantAct2, Act::QuartzQuadrantAct3],
        [Act::WackyWorkbenchAct1, Act::WackyWorkbenchAct2, Act::WackyWorkbenchAct3],
        [Act::StardustSpeedwayAct1, Act::StardustSpeedwayAct2, Act::StardustSpeedwayAct3],
        [Act::MetallicMadnessAct1, Act::MetallicMadnessAct2, Act::MetallicMadnessAct3],
    ];
    for (z, acts) in zones.iter().enumerate() {
        let base = 100 + 10 * z as u32;
        for k in 0..10u32 {
            let expected = if k < 4 { acts[0] } else if k < 8 { acts[1] } else { acts[2] };
            assert_eq!(act_from_code(base + k), Some(expected));
        }
    }
}

#[test]
fn unknown_codes_keep_the_previous_act() {
    assert_eq!(classify_level(105, Some(Act::Credits)), Act::PalmtreePanicAct2);
    assert_eq!(classify_level(105, None), Act::PalmtreePanicAct2);
    assert_eq!(classify_level(50, Some(Act::TidalTempestAct3)), Act::TidalTempestAct3);
    assert_eq!(classify_level(170, None), Act::PalmtreePanicAct1);
    assert_eq!(classify_level(0, Some(Act::TidalTempestAct3)), Act::TitleScreen);
}

#[test]
fn run_order_of_acts() {
    assert_eq!(act_after(Act::PalmtreePanicAct3), Some(Act::CollisionChaosAct1));
    assert_eq!(act_after(Act::StardustSpeedwayAct3), Some(Act::MetallicMadnessAct1));
    assert_eq!(act_after(Act::MetallicMadnessAct2), Some(Act::MetallicMadnessAct3));
    assert_eq!(act_after(Act::MetallicMadnessAct3), None);
    assert_eq!(act_after(Act::MainMenu), None);
    assert_eq!(act_after(Act::Credits), None);
}

#[test]
fn default_settings() {
    let s = Settings::default();
    assert!(s.start && s.reset && !s.rta_tb);
    assert!(s.split_enabled(Act::PalmtreePanicAct1));
    assert!(s.split_enabled(Act::MetallicMadnessAct3));
    assert!(!s.split_enabled(Act::MainMenu));
    let t = Settings { wacky_workbench_2: false, ..Settings::default() };
    assert!(!t.split_enabled(Act::WackyWorkbenchAct2));
    assert!(t.split_enabled(Act::WackyWorkbenchAct1));
}

fn none_found() -> SignatureMatches {
    SignatureMatches {
        retail_32: false,
        decomp_32_1_0_0: false,
        decomp_32_1_3_1: false,
        decomp_32_clock_reset: false,
        decomp_64_1_0_0: false,
        decomp_64_1_3_1: false,
        decomp_64_1_3_2: false,
        decomp_64_clock_reset: false,
    }
}

#[test]
fn build_detection() {
    let build = |version, has_centisecs_bug| Some(Build { version, has_centisecs_bug });
    assert_eq!(detect_build(false, &none_found()), None);
    assert_eq!(detect_build(true, &none_found()), None);
    let retail = SignatureMatches { retail_32: true, decomp_32_1_0_0: true, ..none_found() };
    assert_eq!(detect_build(false, &retail), build(GameVersion::Retail, true));
    assert_eq!(detect_build(true, &retail), None);
    let d32 = SignatureMatches { decomp_32_1_0_0: true, ..none_found() };
    assert_eq!(detect_build(false, &d32), build(GameVersion::Decompilation32bit1_0_0, true));
    let d32_fixed = SignatureMatches { decomp_32_clock_reset: true, ..d32 };
    assert_eq!(detect_build(false, &d32_fixed), build(GameVersion::Decompilation32bit1_0_0, false));
    let d32_new = SignatureMatches { decomp_32_1_3_1: true, ..none_found() };
    assert_eq!(detect_build(false, &d32_new), build(GameVersion::Decompilation32bit1_3_1, false));
    let d64 = SignatureMatches { decomp_64_1_0_0: true, decomp_64_1_3_2: true, ..none_found() };
    assert_eq!(detect_build(true, &d64), build(GameVersion::Decompilation64bit1_0_0, true));
    let d64_fixed = SignatureMatches { decomp_64_clock_reset: true, ..d64 };
    assert_eq!(detect_build(true, &d64_fixed), build(GameVersion::Decompilation64bit1_0_0, false));
    let d64_131 = SignatureMatches { decomp_64_1_3_1: true, ..none_found() };
    assert_eq!(detect_build(true, &d64_131), build(GameVersion::Decompilation64bit1_3_1, false));
    let d64_132 = SignatureMatches { decomp_64_1_3_2: true, ..none_found() };
    assert_eq!(detect_build(true, &d64_132), build(GameVersion::Decompilation64bit1_3_2, false));
    assert_eq!(detect_build(false, &d64_132), None);
}

#[test]
fn tick_plan_follows_the_timer_state() {
    let settings = Settings::default();
    let mut w = Watchers::new();
    let clock = RawReads { minutes: 1, seconds: 30, timer_is_running: 1, ..RawReads::default() };
    update_loop(&clock, TimerState::NotRunning, false, &mut w);
    update_loop(&clock, TimerState::Running, false, &mut w);
    let plan = plan_tick(TimerState::Running, &w, &settings, false);
    assert_eq!(plan.loading, Some(true));
    assert_eq!(plan.game_time, Some(90000));
    assert_eq!(plan.command, None);
    let paused = plan_tick(TimerState::Paused, &w, &settings, false);
    assert_eq!(paused.game_time, Some(90000));
    let idle = plan_tick(TimerState::NotRunning, &w, &settings, false);
    assert_eq!((idle.loading, idle.game_time, idle.command), (None, None, None));
    let ended = plan_tick(TimerState::Ended, &w, &settings, false);
    assert_eq!((ended.loading, ended.game_time, ended.command), (None, None, None));
}

#[test]
fn reset_wins_over_split_and_start_needs_a_stopped_timer() {
    let settings = Settings::default();
    let mut w = Watchers::new();
    let menu = |state: u8| RawReads { state, level_id: 1, ..RawReads::default() };
    update_loop(&menu(6), TimerState::Running, false, &mut w);
    update_loop(&menu(6), TimerState::Running, false, &mut w);
    update_loop(&menu(5), TimerState::Running, false, &mut w);
    let plan = plan_tick(TimerState::Running, &w, &settings, false);
    assert_eq!(plan.command, Some(TimerCommand::Reset));
    update_loop(&menu(6), TimerState::NotRunning, false, &mut w);
    update_loop(&menu(7), TimerState::NotRunning, false, &mut w);
    assert_eq!(plan_start(TimerState::NotRunning, &w, &settings), Some(true));
    assert_eq!(plan_start(TimerState::Running, &w, &settings), None);
    let alternate = Settings { rta_tb: true, ..Settings::default() };
    assert_eq!(plan_start(TimerState::NotRunning, &w, &alternate), Some(false));
    let mut v = Watchers::new();
    let level = |level_id: u8| RawReads { level_id_type: 1, level_id, ..RawReads::default() };
    update_loop(&level(0), TimerState::Running, false, &mut v);
    update_loop(&level(0), TimerState::Running, false, &mut v);
    update_loop(&level(5), TimerState::Running, false, &mut v);
    assert_eq!(plan_tick(TimerState::Running, &v, &settings, false).command, Some(TimerCommand::Split));
}
