use vstd::prelude::*;
use crate::act::Act;

verus! {

/// What the user has switched on. Each per-act toggle lets the splitter split
/// when the run leaves that act.
#[derive(Clone, Copy, Debug)]
pub struct Settings {
    /// Start the timer from the main menu.
    pub start: bool,
    /// Reset the timer from the main menu.
    pub reset: bool,
    /// Time by real time without time-bonus loads, in place of in-game time.
    pub rta_tb: bool,
    /// Palmtree Panic - Act 1
    pub palmtree_panic_1: bool,
    /// Palmtree Panic - Act 2
    pub palmtree_panic_2: bool,
    /// Palmtree Panic - Act 3
    pub palmtree_panic_3: bool,
    /// Collision Chaos - Act 1
    pub collision_chaos_1: bool,
    /// Collision Chaos - Act 2
    pub collision_chaos_2: bool,
    /// Collision Chaos - Act 3
    pub collision_chaos_3: bool,
    /// Tidal Tempest - Act 1
    pub tidal_tempest_1: bool,
    /// Tidal Tempest - Act 2
    pub tidal_tempest_2: bool,
    /// Tidal Tempest - Act 3
    pub tidal_tempest_3: bool,
    /// Quartz Quadrant - Act 1
    pub quartz_quadrant_1: bool,
    /// Quartz Quadrant - Act 2
    pub quartz_quadrant_2: bool,
    /// Quartz Quadrant - Act 3
    pub quartz_quadrant_3: bool,
    /// Wacky Workbench - Act 1
    pub wacky_workbench_1: bool,
    /// Wacky Workbench - Act 2
    pub wacky_workbench_2: bool,
    /// Wacky Workbench - Act 3
    pub wacky_workbench_3: bool,
    /// Stardust Speedway - Act 1
    pub stardust_speedway_1: bool,
    /// Stardust Speedway - Act 2
    pub stardust_speedway_2: bool,
    /// Stardust Speedway - Act 3
    pub stardust_speedway_3: bool,
    /// Metallic Madness - Act 1
    pub metallic_madness_1: bool,
    /// Metallic Madness - Act 2
    pub metallic_madness_2: bool,
    /// Metallic Madness - Act 3
    pub metallic_madness_3: bool,
}

impl Settings {
    /// Whether the toggle for leaving `a` is on; false for the menus and the
    /// credits, which have no toggle.
    pub open spec fn split_enabled_spec(&self, a: Act) -> bool {
        match a {
            Act::PalmtreePanicAct1 => self.palmtree_panic_1,
            Act::PalmtreePanicAct2 => self.palmtree_panic_2,
            Act::PalmtreePanicAct3 => self.palmtree_panic_3,
            Act::CollisionChaosAct1 => self.collision_chaos_1,
            Act::CollisionChaosAct2 => self.collision_chaos_2,
            Act::CollisionChaosAct3 => self.collision_chaos_3,
            Act::TidalTempestAct1 => self.tidal_tempest_1,
            Act::TidalTempestAct2 => self.tidal_tempest_2,
            Act::TidalTempestAct3 => self.tidal_tempest_3,
            Act::QuartzQuadrantAct1 => self.quartz_quadrant_1,
            Act::QuartzQuadrantAct2 => self.quartz_quadrant_2,
            Act::QuartzQuadrantAct3 => self.quartz_quadrant_3,
            Act::WackyWorkbenchAct1 => self.wacky_workbench_1,
            Act::WackyWorkbenchAct2 => self.wacky_workbench_2,
            Act::WackyWorkbenchAct3 => self.wacky_workbench_3,
            Act::StardustSpeedwayAct1 => self.stardust_speedway_1,
            Act::StardustSpeedwayAct2 => self.stardust_speedway_2,
            Act::StardustSpeedwayAct3 => self.stardust_speedway_3,
            Act::MetallicMadnessAct1 => self.metallic_madness_1,
            Act::MetallicMadnessAct2 => self.metallic_madness_2,
            Act::MetallicMadnessAct3 => self.metallic_madness_3,
            _ => false,
        }
    }

    /// Whether the toggle for leaving `a` is on.
    pub fn split_enabled(&self, a: Act) -> (r: bool)
        ensures
            r == self.split_enabled_spec(a),
    {
        match a {
            Act::PalmtreePanicAct1 => self.palmtree_panic_1,
            Act::PalmtreePanicAct2 => self.palmtree_panic_2,
            Act::PalmtreePanicAct3 => self.palmtree_panic_3,
            Act::CollisionChaosAct1 => self.collision_chaos_1,
            Act::CollisionChaosAct2 => self.collision_chaos_2,
            Act::CollisionChaosAct3 => self.collision_chaos_3,
            Act::TidalTempestAct1 => self.tidal_tempest_1,
            Act::TidalTempestAct2 => self.tidal_tempest_2,
            Act::TidalTempestAct3 => self.tidal_tempest_3,
            Act::QuartzQuadrantAct1 => self.quartz_quadrant_1,
            Act::QuartzQuadrantAct2 => self.quartz_quadrant_2,
            Act::QuartzQuadrantAct3 => self.quartz_quadrant_3,
            Act::WackyWorkbenchAct1 => self.wacky_workbench_1,
            Act::WackyWorkbenchAct2 => self.wacky_workbench_2,
            Act::WackyWorkbenchAct3 => self.wacky_workbench_3,
            Act::StardustSpeedwayAct1 => self.stardust_speedway_1,
            Act::StardustSpeedwayAct2 => self.stardust_speedway_2,
            Act::StardustSpeedwayAct3 => self.stardust_speedway_3,
            Act::MetallicMadnessAct1 => self.metallic_madness_1,
            Act::MetallicMadnessAct2 => self.metallic_madness_2,
            Act::MetallicMadnessAct3 => self.metallic_madness_3,
            _ => false,
        }
    }
}

impl Default for Settings {
    /// Everything on but the alternate timing rules.
    fn default() -> (r: Self)
        ensures
            r.start,
            r.reset,
            !r.rta_tb,
            forall|a: Act| 0 <= crate::act::stage_of(a) ==> #[trigger] r.split_enabled_spec(a),
    {
        Settings {
            start: true,
            reset: true,
            rta_tb: false,
            palmtree_panic_1: true,
            palmtree_panic_2: true,
            palmtree_panic_3: true,
            collision_chaos_1: true,
            collision_chaos_2: true,
            collision_chaos_3: true,
            tidal_tempest_1: true,
            tidal_tempest_2: true,
            tidal_tempest_3: true,
            quartz_quadrant_1: true,
            quartz_quadrant_2: true,
            quartz_quadrant_3: true,
            wacky_workbench_1: true,
            wacky_workbench_2: true,
            wacky_workbench_3: true,
            stardust_speedway_1: true,
            stardust_speedway_2: true,
            stardust_speedway_3: true,
            metallic_madness_1: true,
            metallic_madness_2: true,
            metallic_madness_3: true,
        }
    }
}

} // verus!
