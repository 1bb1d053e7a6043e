use vstd::prelude::*;

verus! {

/// A place in the game that the splitter tells apart: the menus, the credits,
/// and the three acts of each of the seven zones.
#[derive(Clone, Copy, PartialEq, Eq, Structural, Debug, Hash)]
pub enum Act {
    TitleScreen,
    MainMenu,
    TimeAttack,
    PalmtreePanicAct1,
    PalmtreePanicAct2,
    PalmtreePanicAct3,
    CollisionChaosAct1,
    CollisionChaosAct2,
    CollisionChaosAct3,
    TidalTempestAct1,
    TidalTempestAct2,
    TidalTempestAct3,
    QuartzQuadrantAct1,
    QuartzQuadrantAct2,
    QuartzQuadrantAct3,
    WackyWorkbenchAct1,
    WackyWorkbenchAct2,
    WackyWorkbenchAct3,
    StardustSpeedwayAct1,
    StardustSpeedwayAct2,
    StardustSpeedwayAct3,
    MetallicMadnessAct1,
    MetallicMadnessAct2,
    MetallicMadnessAct3,
    Credits,
}

/// Where a run starts when nothing better is known.
pub const FIRST_ACT: Act = Act::PalmtreePanicAct1;

/// The act at position `stage` of a run: zone `stage / 3` in the order the game
/// plays them, act `stage % 3 + 1` of it. Meaningful for stages 0 to 20.
pub open spec fn stage_act(stage: int) -> Act {
    let zone = stage / 3;
    let act = stage % 3;
    if zone == 0 {
        if act == 0 { Act::PalmtreePanicAct1 } else if act == 1 { Act::PalmtreePanicAct2 } else { Act::PalmtreePanicAct3 }
    } else if zone == 1 {
        if act == 0 { Act::CollisionChaosAct1 } else if act == 1 { Act::CollisionChaosAct2 } else { Act::CollisionChaosAct3 }
    } else if zone == 2 {
        if act == 0 { Act::TidalTempestAct1 } else if act == 1 { Act::TidalTempestAct2 } else { Act::TidalTempestAct3 }
    } else if zone == 3 {
        if act == 0 { Act::QuartzQuadrantAct1 } else if act == 1 { Act::QuartzQuadrantAct2 } else { Act::QuartzQuadrantAct3 }
    } else if zone == 4 {
        if act == 0 { Act::WackyWorkbenchAct1 } else if act == 1 { Act::WackyWorkbenchAct2 } else { Act::WackyWorkbenchAct3 }
    } else if zone == 5 {
        if act == 0 { Act::StardustSpeedwayAct1 } else if act == 1 { Act::StardustSpeedwayAct2 } else { Act::StardustSpeedwayAct3 }
    } else {
        if act == 0 { Act::MetallicMadnessAct1 } else if act == 1 { Act::MetallicMadnessAct2 } else { Act::MetallicMadnessAct3 }
    }
}

/// The act that a level code names, if any. Codes 0, 1, 2 and 8 are the title
/// screen, the main menu, time attack and the credits. Codes 100 to 169 hold
/// ten codes per zone: the first four are act 1, the next four act 2, the
/// last two act 3.
pub open spec fn act_for_code(code: u32) -> Option<Act> {
    if code == 0 {
        Some(Act::TitleScreen)
    } else if code == 1 {
        Some(Act::MainMenu)
    } else if code == 2 {
        Some(Act::TimeAttack)
    } else if code == 8 {
        Some(Act::Credits)
    } else if 100 <= code < 170 {
        let zone = (code - 100) / 10;
        let within = (code - 100) % 10;
        let act = if within < 4 { 0int } else if within < 8 { 1int } else { 2int };
        Some(stage_act(3 * zone + act))
    } else {
        None
    }
}

/// The act already held, or the first act of a run when none is.
pub open spec fn held_act(previous: Option<Act>) -> Act {
    match previous {
        Some(p) => p,
        None => FIRST_ACT,
    }
}

/// The act that a tick settles on for `code`: the act the code names, or else
/// the act already held, or else the first act of a run.
pub open spec fn classified(code: u32, previous: Option<Act>) -> Act {
    match act_for_code(code) {
        Some(a) => a,
        None => held_act(previous),
    }
}

/// The position of `a` in a run (see `stage_act`), or -1 for the menus and
/// the credits.
pub open spec fn stage_of(a: Act) -> int {
    match a {
        Act::PalmtreePanicAct1 => 0,
        Act::PalmtreePanicAct2 => 1,
        Act::PalmtreePanicAct3 => 2,
        Act::CollisionChaosAct1 => 3,
        Act::CollisionChaosAct2 => 4,
        Act::CollisionChaosAct3 => 5,
        Act::TidalTempestAct1 => 6,
        Act::TidalTempestAct2 => 7,
        Act::TidalTempestAct3 => 8,
        Act::QuartzQuadrantAct1 => 9,
        Act::QuartzQuadrantAct2 => 10,
        Act::QuartzQuadrantAct3 => 11,
        Act::WackyWorkbenchAct1 => 12,
        Act::WackyWorkbenchAct2 => 13,
        Act::WackyWorkbenchAct3 => 14,
        Act::StardustSpeedwayAct1 => 15,
        Act::StardustSpeedwayAct2 => 16,
        Act::StardustSpeedwayAct3 => 17,
        Act::MetallicMadnessAct1 => 18,
        Act::MetallicMadnessAct2 => 19,
        Act::MetallicMadnessAct3 => 20,
        _ => -1,
    }
}

/// The act that follows `a` in a run, for the twenty acts that have a
/// successor among the acts (the last act of the last zone has none).
pub open spec fn next_act(a: Act) -> Option<Act> {
    if 0 <= stage_of(a) < 20 {
        Some(stage_act(stage_of(a) + 1))
    } else {
        None
    }
}

/// The act that follows `a` in a run, if any (see `next_act`).
pub fn act_after(a: Act) -> (r: Option<Act>)
    ensures
        r == next_act(a),
{
    match a {
        Act::PalmtreePanicAct1 => Some(Act::PalmtreePanicAct2),
        Act::PalmtreePanicAct2 => Some(Act::PalmtreePanicAct3),
        Act::PalmtreePanicAct3 => Some(Act::CollisionChaosAct1),
        Act::CollisionChaosAct1 => Some(Act::CollisionChaosAct2),
        Act::CollisionChaosAct2 => Some(Act::CollisionChaosAct3),
        Act::CollisionChaosAct3 => Some(Act::TidalTempestAct1),
        Act::TidalTempestAct1 => Some(Act::TidalTempestAct2),
        Act::TidalTempestAct2 => Some(Act::TidalTempestAct3),
        Act::TidalTempestAct3 => Some(Act::QuartzQuadrantAct1),
        Act::QuartzQuadrantAct1 => Some(Act::QuartzQuadrantAct2),
        Act::QuartzQuadrantAct2 => Some(Act::QuartzQuadrantAct3),
        Act::QuartzQuadrantAct3 => Some(Act::WackyWorkbenchAct1),
        Act::WackyWorkbenchAct1 => Some(Act::WackyWorkbenchAct2),
        Act::WackyWorkbenchAct2 => Some(Act::WackyWorkbenchAct3),
        Act::WackyWorkbenchAct3 => Some(Act::StardustSpeedwayAct1),
        Act::StardustSpeedwayAct1 => Some(Act::StardustSpeedwayAct2),
        Act::StardustSpeedwayAct2 => Some(Act::StardustSpeedwayAct3),
        Act::StardustSpeedwayAct3 => Some(Act::MetallicMadnessAct1),
        Act::MetallicMadnessAct1 => Some(Act::MetallicMadnessAct2),
        Act::MetallicMadnessAct2 => Some(Act::MetallicMadnessAct3),
        _ => None,
    }
}

/// Level codes combine the level type and the level number.
pub open spec fn level_code(level_id_type: u8, level_id: u8) -> u32 {
    (level_id_type as u32 * 100 + level_id as u32) as u32
}

/// The codes that name an act are exactly 0, 1, 2, 8 and 100 to 169; the
/// table gives one act for each of them.
pub proof fn lemma_code_table_domain(code: u32)
    ensures
        act_for_code(code) is Some <==> (code == 0 || code == 1 || code == 2 || code == 8 || (
        100 <= code <= 169)),
{
}

/// Classification depends on the code alone wherever the code names an act,
/// and keeps the act already held wherever it does not.
pub proof fn lemma_classified_is_total(code: u32, previous: Option<Act>, other: Option<Act>)
    ensures
        act_for_code(code) is Some ==> classified(code, previous) == classified(code, other),
        act_for_code(code) is None && previous is Some ==> classified(code, previous)
            == previous.unwrap(),
{
}

/// The act that a level code names, if any.
pub fn act_from_code(code: u32) -> (r: Option<Act>)
    ensures
        r == act_for_code(code),
{
    match code {
        0 => Some(Act::TitleScreen),
        1 => Some(Act::MainMenu),
        2 => Some(Act::TimeAttack),
        8 => Some(Act::Credits),
        100..=103 => Some(Act::PalmtreePanicAct1),
        104..=107 => Some(Act::PalmtreePanicAct2),
        108..=109 => Some(Act::PalmtreePanicAct3),
        110..=113 => Some(Act::CollisionChaosAct1),
        114..=117 => Some(Act::CollisionChaosAct2),
        118..=119 => Some(Act::CollisionChaosAct3),
        120..=123 => Some(Act::TidalTempestAct1),
        124..=127 => Some(Act::TidalTempestAct2),
        128..=129 => Some(Act::TidalTempestAct3),
        130..=133 => Some(Act::QuartzQuadrantAct1),
        134..=137 => Some(Act::QuartzQuadrantAct2),
        138..=139 => Some(Act::QuartzQuadrantAct3),
        140..=143 => Some(Act::WackyWorkbenchAct1),
        144..=147 => Some(Act::WackyWorkbenchAct2),
        148..=149 => Some(Act::WackyWorkbenchAct3),
        150..=153 => Some(Act::StardustSpeedwayAct1),
        154..=157 => Some(Act::StardustSpeedwayAct2),
        158..=159 => Some(Act::StardustSpeedwayAct3),
        160..=163 => Some(Act::MetallicMadnessAct1),
        164..=167 => Some(Act::MetallicMadnessAct2),
        168..=169 => Some(Act::MetallicMadnessAct3),
        _ => None,
    }
}

/// The act for `code`, falling back on the act already held, and on the first
/// act of a run when none is held yet.
pub fn classify_level(code: u32, previous: Option<Act>) -> (r: Act)
    ensures
        r == classified(code, previous),
{
    match act_from_code(code) {
        Some(a) => a,
        None => match previous {
            Some(p) => p,
            None => FIRST_ACT,
        },
    }
}

} // verus!
