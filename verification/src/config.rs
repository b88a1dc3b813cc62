//! Tuning constants and the immutable simulation configuration.
//!
//! Positions and playfield bounds are in milliunits (thousandths of a world
//! unit); velocities and accelerations are in world units per second; elapsed
//! time is in milliseconds.

use vstd::prelude::*;

verus! {

/// Saturation cap on the magnitude of any velocity component, units/s.
/// Every velocity update clamps into `[-VEL_LIMIT, VEL_LIMIT]`, which keeps
/// the fixed-point arithmetic total; nothing in ordinary play comes near it.
pub const VEL_LIMIT: i64 = 1_000_000;

/// Largest elapsed time one tick accepts, in milliseconds.
pub const DT_LIMIT: i64 = 60_000;

/// Cap on playfield half-extents and on coordinates fed to the collision
/// primitive, in milliunits.
pub const COORD_LIMIT: i64 = 1_000_000_000;

/// Player sprite half-width and half-height, milliunits (30x50 units).
pub const PLAYER_HW: i64 = 15_000;
pub const PLAYER_HH: i64 = 25_000;

/// Recycle-bin sprite half-width and half-height, milliunits (37x43 units).
pub const RECYCLE_HW: i64 = 18_500;
pub const RECYCLE_HH: i64 = 21_500;

/// Spawned folder half-width and half-height, milliunits (37x32 units).
pub const FOLDER_HW: i64 = 18_500;
pub const FOLDER_HH: i64 = 16_000;

/// Start positions, milliunits.
pub const PLAYER_START_X: i64 = 0;
pub const PLAYER_START_Y: i64 = 0;
pub const RECYCLE_START_X: i64 = 50_000;
pub const RECYCLE_START_Y: i64 = -290_000;

/// Mathematical model of a configuration: the same fields over `int`.
pub ghost struct CfgModel {
    /// Half the playfield width, milliunits.
    pub x_bound: int,
    /// Half the playfield height, milliunits.
    pub y_bound: int,
    /// Horizontal acceleration added per tick while an arrow key is held, units/s.
    pub x_accel: int,
    /// Horizontal speed clamp applied before integration, units/s.
    pub x_max_vel: int,
    /// Downward acceleration added to every entity each tick, units/s.
    pub grav: int,
    /// Upward impulse added when the player jumps while grounded, units/s.
    pub jump_accel: int,
    /// Magnitude of the launch impulse a collision imparts, units/s.
    pub launch: int,
    /// Height at or below which the player counts as grounded, milliunits.
    pub ground_y: int,
}

impl CfgModel {
    /// A configuration the simulation accepts: positive playfield, all tuning
    /// magnitudes within the fixed-point caps, and a playfield large enough
    /// to hold each sprite kind.
    pub open spec fn wf(self) -> bool {
        &&& 0 < self.x_bound <= COORD_LIMIT
        &&& 0 < self.y_bound <= COORD_LIMIT
        &&& 0 <= self.x_accel <= VEL_LIMIT
        &&& 0 <= self.x_max_vel <= VEL_LIMIT
        &&& 0 <= self.grav <= VEL_LIMIT
        &&& 0 <= self.jump_accel <= VEL_LIMIT
        &&& 0 <= self.launch <= VEL_LIMIT
        &&& -COORD_LIMIT <= self.ground_y <= COORD_LIMIT
        &&& PLAYER_HW <= self.x_bound
        &&& PLAYER_HH <= self.y_bound
        &&& RECYCLE_HW <= self.x_bound
        &&& RECYCLE_HH <= self.y_bound
        &&& FOLDER_HW <= self.x_bound
        &&& FOLDER_HH <= self.y_bound
    }
}

/// The immutable configuration handed to the simulation: playfield size and
/// physics tuning constants.
#[derive(Clone, Copy, Debug)]
pub struct Config {
    /// Half the playfield width, milliunits.
    pub x_bound: i64,
    /// Half the playfield height, milliunits.
    pub y_bound: i64,
    /// Horizontal acceleration added per tick while an arrow key is held, units/s.
    pub x_accel: i64,
    /// Horizontal speed clamp applied before integration, units/s.
    pub x_max_vel: i64,
    /// Downward acceleration added to every entity each tick, units/s.
    pub grav: i64,
    /// Upward impulse added when the player jumps while grounded, units/s.
    pub jump_accel: i64,
    /// Magnitude of the launch impulse a collision imparts, units/s.
    pub launch: i64,
    /// Height at or below which the player counts as grounded, milliunits.
    pub ground_y: i64,
}

impl View for Config {
    type V = CfgModel;

    open spec fn view(&self) -> CfgModel {
        CfgModel {
            x_bound: self.x_bound as int,
            y_bound: self.y_bound as int,
            x_accel: self.x_accel as int,
            x_max_vel: self.x_max_vel as int,
            grav: self.grav as int,
            jump_accel: self.jump_accel as int,
            launch: self.launch as int,
            ground_y: self.ground_y as int,
        }
    }
}

/// The model of the standard configuration, as `standard` returns it.
pub open spec fn standard_cfg() -> CfgModel {
    CfgModel {
        x_bound: 640_000,
        y_bound: 360_000,
        x_accel: 25,
        x_max_vel: 100,
        grav: 10,
        jump_accel: 200,
        launch: 200,
        ground_y: -335_000,
    }
}

impl Config {
    /// The configuration of the original game: a 1280x720 playfield and its
    /// fixed physics tuning constants.
    pub fn standard() -> (c: Config)
        ensures
            c@ == standard_cfg(),
            c@.wf(),
    {
        Config {
            x_bound: 640_000,
            y_bound: 360_000,
            x_accel: 25,
            x_max_vel: 100,
            grav: 10,
            jump_accel: 200,
            launch: 200,
            ground_y: -335_000,
        }
    }
}

} // verus!
