use vstd::prelude::*;

use crate::motion::Point;
use crate::random::random_in;

verus! {

/// Angles are in thousandths of a degree; a quarter turn.
pub const QUARTER_TURN: i64 = 90000;

/// Largest deviation of a mob's heading from the path's tangent: an
/// eighth of a turn either way.
pub const MAX_PERTURBATION: i64 = 45000;

/// Slowest mob speed, in screen units per second.
pub const MOB_MIN_SPEED: i64 = 150;

/// Fastest mob speed, in screen units per second.
pub const MOB_MAX_SPEED: i64 = 250;

/// The look of a mob.
#[derive(Clone, Copy, Debug, PartialEq, Eq, Structural)]
pub enum MobVariant {
    Walk,
    Swim,
    Fly,
}

/// The random choices behind one spawned mob.
#[derive(Clone, Copy, Debug, PartialEq, Eq, Structural)]
pub struct SpawnDraws {
    /// Distance along the spawn path, in thousandths of a unit.
    pub offset: u32,
    /// Deviation of the heading from the path's tangent.
    pub perturbation: i64,
    /// Speed, in screen units per second.
    pub speed: i64,
    pub variant: MobVariant,
}

/// Where a new mob starts, which way it faces and how it moves: it travels
/// along `heading` at `speed` and is drawn turned by `rotation`.
#[derive(Clone, Copy, Debug, PartialEq, Eq, Structural)]
pub struct Trajectory {
    pub position: Point,
    pub heading: i64,
    pub rotation: i64,
    pub speed: i64,
}

/// A spawned mob.
#[derive(Clone, Copy, Debug, PartialEq, Eq, Structural)]
pub struct Mob {
    pub trajectory: Trajectory,
    pub variant: MobVariant,
}

pub open spec fn variant_at(index: int) -> MobVariant {
    if index == 0 {
        MobVariant::Walk
    } else if index == 1 {
        MobVariant::Swim
    } else {
        MobVariant::Fly
    }
}

/// The draws that every spawn respects: an offset on the path, a bounded
/// perturbation and a speed in the mob speed range.
pub open spec fn draws_in_range(d: SpawnDraws, path_length: u32) -> bool {
    &&& d.offset <= path_length
    &&& -MAX_PERTURBATION <= d.perturbation <= MAX_PERTURBATION
    &&& MOB_MIN_SPEED <= d.speed <= MOB_MAX_SPEED
}

/// The trajectory that a point of the path, the tangent there and the
/// draws give: the heading is the tangent turned by the perturbation, the
/// sprite is turned a quarter turn further.
pub open spec fn trajectory_of(base_position: Point, base_rotation: i32, d: SpawnDraws) -> Trajectory {
    Trajectory {
        position: base_position,
        heading: (base_rotation + d.perturbation) as i64,
        rotation: (base_rotation + d.perturbation + QUARTER_TURN) as i64,
        speed: d.speed,
    }
}

/// The variant for an index among the three.
pub fn variant_from_index(index: i64) -> (r: MobVariant)
    requires
        0 <= index <= 2,
    ensures
        r == variant_at(index as int),
{
    if index == 0 {
        MobVariant::Walk
    } else if index == 1 {
        MobVariant::Swim
    } else {
        MobVariant::Fly
    }
}

/// Draws the random choices for one mob on a path of length `path_length`.
pub fn draw_spawn(path_length: u32) -> (r: SpawnDraws)
    ensures
        draws_in_range(r, path_length),
{
    let offset = random_in(0, path_length as i64) as u32;
    let perturbation = random_in(-MAX_PERTURBATION, MAX_PERTURBATION);
    let speed = random_in(MOB_MIN_SPEED, MOB_MAX_SPEED);
    let variant = variant_from_index(random_in(0, 2));
    SpawnDraws { offset, perturbation, speed, variant }
}

/// The trajectory for a mob that starts at `base_position`, where the
/// path's tangent points along `base_rotation`.
pub fn trajectory_from(base_position: Point, base_rotation: i32, d: SpawnDraws) -> (r: Trajectory)
    requires
        -MAX_PERTURBATION <= d.perturbation <= MAX_PERTURBATION,
    ensures
        r == trajectory_of(base_position, base_rotation, d),
{
    let heading = base_rotation as i64 + d.perturbation;
    Trajectory { position: base_position, heading, rotation: heading + QUARTER_TURN, speed: d.speed }
}

/// Any trajectory built from draws in range moves at a mob speed and
/// deviates from the path's tangent by at most an eighth of a turn.
pub proof fn lemma_trajectory_bounds(base_position: Point, base_rotation: i32, d: SpawnDraws, path_length: u32)
    requires
        draws_in_range(d, path_length),
    ensures
        MOB_MIN_SPEED <= trajectory_of(base_position, base_rotation, d).speed <= MOB_MAX_SPEED,
        -MAX_PERTURBATION <= trajectory_of(base_position, base_rotation, d).heading - base_rotation
            <= MAX_PERTURBATION,
        trajectory_of(base_position, base_rotation, d).rotation == trajectory_of(
            base_position,
            base_rotation,
            d,
        ).heading + QUARTER_TURN,
{
}

impl Mob {
    /// A mob on the trajectory that the path point and the draws give.
    pub fn spawn(base_position: Point, base_rotation: i32, d: SpawnDraws) -> (r: Mob)
        requires
            -MAX_PERTURBATION <= d.perturbation <= MAX_PERTURBATION,
        ensures
            r.trajectory == trajectory_of(base_position, base_rotation, d),
            r.variant == d.variant,
    {
        Mob { trajectory: trajectory_from(base_position, base_rotation, d), variant: d.variant }
    }
}

} // verus!
