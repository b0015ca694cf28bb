use vstd::prelude::*;

verus! {

/// Player speed, in screen units per second.
pub const PLAYER_SPEED: i64 = 400;

/// Thousandths of a screen unit make one screen unit.
pub const SUBUNITS: i64 = 1000;

/// Velocity along a single axis when the player moves straight, in
/// thousandths of a unit per second.
pub const AXIS_SPEED: i64 = PLAYER_SPEED * SUBUNITS;

/// Velocity along each axis when the player moves diagonally: the largest
/// value `c` with `2 * c * c <= AXIS_SPEED * AXIS_SPEED`, so that the speed is
/// `AXIS_SPEED` to within the resolution of a subunit.
pub const DIAGONAL_AXIS_SPEED: i64 = 282842;

/// Microseconds in one second.
pub const MICROS_PER_SECOND: i64 = 1000000;

/// Largest magnitude of a coordinate, and of a screen bound.
pub const MAX_COORD: i64 = 1099511627776;

/// A point or a size, in thousandths of a screen unit.
#[derive(Clone, Copy, Debug, PartialEq, Eq, Structural)]
pub struct Point {
    pub x: i64,
    pub y: i64,
}

/// A velocity, in thousandths of a screen unit per second.
#[derive(Clone, Copy, Debug, PartialEq, Eq, Structural)]
pub struct Velocity {
    pub x: i64,
    pub y: i64,
}

/// The four directional inputs sampled in one frame.
#[derive(Clone, Copy, Debug, PartialEq, Eq, Structural)]
pub struct Intents {
    pub right: bool,
    pub left: bool,
    pub down: bool,
    pub up: bool,
}

/// Which way the player's sprite faces after a frame.
#[derive(Clone, Copy, Debug, PartialEq, Eq, Structural)]
pub enum Facing {
    /// The side-facing animation, mirrored when moving left.
    Side { flip_h: bool },
    /// The up-facing animation, mirrored when moving down.
    Vertical { flip_v: bool },
    /// No movement: the facing stays as it was.
    Keep,
}

/// What a frame's update tells the presentation side.
#[derive(Clone, Copy, Debug, PartialEq, Eq, Structural)]
pub struct MotionOutput {
    pub moving: bool,
    pub horizontal_sign: i8,
    pub vertical_sign: i8,
    pub facing: Facing,
}

/// The player entity.
#[derive(Clone, Copy, Debug, PartialEq, Eq, Structural)]
pub struct Player {
    pub position: Point,
    pub velocity: Velocity,
    pub bounds: Point,
    pub monitoring: bool,
    pub visible: bool,
}

/// -1, 0 or 1 along one axis: opposite inputs cancel.
pub open spec fn axis_sign(positive: bool, negative: bool) -> int {
    if positive && !negative {
        1
    } else if negative && !positive {
        -1
    } else {
        0
    }
}

pub open spec fn sign_x(i: Intents) -> int {
    axis_sign(i.right, i.left)
}

pub open spec fn sign_y(i: Intents) -> int {
    axis_sign(i.down, i.up)
}

/// Speed along each moving axis: straight or diagonal.
pub open spec fn axis_speed_for(i: Intents) -> int {
    if sign_x(i) != 0 && sign_y(i) != 0 {
        DIAGONAL_AXIS_SPEED as int
    } else {
        AXIS_SPEED as int
    }
}

/// The velocity that a set of inputs gives.
pub open spec fn velocity_of(i: Intents) -> Velocity {
    Velocity {
        x: (sign_x(i) * axis_speed_for(i)) as i64,
        y: (sign_y(i) * axis_speed_for(i)) as i64,
    }
}

pub open spec fn speed_squared(v: Velocity) -> int {
    v.x * v.x + v.y * v.y
}

pub open spec fn is_moving(v: Velocity) -> bool {
    v.x != 0 || v.y != 0
}

/// Distance covered along one axis in `delta` microseconds, truncated
/// toward zero.
pub open spec fn displacement(v: int, delta: int) -> int {
    if v >= 0 {
        v * delta / (MICROS_PER_SECOND as int)
    } else {
        -((-v) * delta / (MICROS_PER_SECOND as int))
    }
}

pub open spec fn clamp(p: int, max: int) -> int {
    if p > max {
        max
    } else if p < 0 {
        0
    } else {
        p
    }
}

/// Horizontal movement decides the facing first; vertical only where there
/// is no horizontal movement.
pub open spec fn facing_of(v: Velocity) -> Facing {
    if v.x != 0 {
        Facing::Side { flip_h: v.x < 0 }
    } else if v.y != 0 {
        Facing::Vertical { flip_v: v.y > 0 }
    } else {
        Facing::Keep
    }
}

pub open spec fn sign_of(v: int) -> int {
    if v > 0 {
        1
    } else if v < 0 {
        -1
    } else {
        0
    }
}

/// Where the player stands after moving at `v` for `delta` microseconds.
pub open spec fn moved(p: Point, v: Velocity, bounds: Point, delta: int) -> Point {
    Point {
        x: clamp(p.x + displacement(v.x as int, delta), bounds.x as int) as i64,
        y: clamp(p.y + displacement(v.y as int, delta), bounds.y as int) as i64,
    }
}

pub open spec fn in_bounds(p: Point, bounds: Point) -> bool {
    0 <= p.x <= bounds.x && 0 <= p.y <= bounds.y
}

pub open spec fn within_limits(p: Point) -> bool {
    -MAX_COORD <= p.x <= MAX_COORD && -MAX_COORD <= p.y <= MAX_COORD
}

/// How many of the four inputs are active.
pub open spec fn active_count(i: Intents) -> int {
    (if i.right { 1int } else { 0 }) + (if i.left { 1int } else { 0 }) + (if i.down { 1int } else { 0 })
        + (if i.up { 1int } else { 0 })
}

/// One horizontal and one vertical input, and nothing else.
pub open spec fn orthogonal_pair(i: Intents) -> bool {
    active_count(i) == 2 && (i.right || i.left) && (i.down || i.up)
}

/// Whatever the inputs and the frame's length, the player ends the frame
/// on the screen.
pub proof fn lemma_moved_in_bounds(p: Point, v: Velocity, bounds: Point, delta: int)
    requires
        0 <= bounds.x,
        0 <= bounds.y,
    ensures
        in_bounds(moved(p, v, bounds, delta), bounds),
{
}

/// Fixed-point form of the diagonal speed: the per-axis value is the
/// largest whose diagonal speed does not exceed the straight one.
pub proof fn lemma_diagonal_speed()
    ensures
        2 * (DIAGONAL_AXIS_SPEED as int) * (DIAGONAL_AXIS_SPEED as int) <= (AXIS_SPEED as int)
            * (AXIS_SPEED as int),
        (AXIS_SPEED as int) * (AXIS_SPEED as int) < 2 * (DIAGONAL_AXIS_SPEED as int + 1) * (
        DIAGONAL_AXIS_SPEED as int + 1),
{
    assert(2 * (282842 as int) * (282842 as int) == 159999193928);
    assert((400000 as int) * (400000 as int) == 160000000000);
    assert(2 * (282843 as int) * (282843 as int) == 160000325298);
}

/// With no input the velocity is zero; with one input, or with two inputs
/// on different axes, the speed is the player speed (exactly when straight,
/// to within the subunit resolution when diagonal).
pub proof fn lemma_speed_normalized(i: Intents)
    ensures
        !i.right && !i.left && !i.down && !i.up ==> velocity_of(i) == (Velocity { x: 0, y: 0 }),
        (sign_x(i) == 0) != (sign_y(i) == 0) ==> speed_squared(velocity_of(i)) == (
        AXIS_SPEED as int) * (AXIS_SPEED as int),
        sign_x(i) != 0 && sign_y(i) != 0 ==> speed_squared(velocity_of(i)) == 2 * (
        DIAGONAL_AXIS_SPEED as int) * (DIAGONAL_AXIS_SPEED as int),
        active_count(i) == 1 ==> speed_squared(velocity_of(i)) == (AXIS_SPEED as int) * (
        AXIS_SPEED as int),
        orthogonal_pair(i) ==> speed_squared(velocity_of(i)) == 2 * (DIAGONAL_AXIS_SPEED as int) * (
        DIAGONAL_AXIS_SPEED as int),
{
    lemma_diagonal_speed();
    let v = velocity_of(i);
    let a = axis_speed_for(i);
    assert(sign_x(i) == -1 || sign_x(i) == 0 || sign_x(i) == 1);
    assert(sign_y(i) == -1 || sign_y(i) == 0 || sign_y(i) == 1);
    assert(v.x == sign_x(i) * a && v.y == sign_y(i) * a);
    lemma_unit_square(sign_x(i), a);
    lemma_unit_square(sign_y(i), a);
}

proof fn lemma_unit_square(s: int, a: int)
    requires
        s == -1 || s == 0 || s == 1,
    ensures
        (s * a) * (s * a) == if s == 0 { 0 } else { a * a },
{
    if s == -1 {
        assert(s * a == -a);
        assert((-a) * (-a) == a * a) by (nonlinear_arith);
    } else if s == 0 {
        assert(s * a == 0);
    } else {
        assert(s * a == a);
    }
}

fn sign_from(positive: bool, negative: bool) -> (r: i64)
    ensures
        r == axis_sign(positive, negative),
{
    if positive && !negative {
        1
    } else if negative && !positive {
        -1
    } else {
        0
    }
}

/// The velocity that a frame's inputs ask for.
pub fn velocity_from(i: Intents) -> (r: Velocity)
    ensures
        r == velocity_of(i),
{
    let sx = sign_from(i.right, i.left);
    let sy = sign_from(i.down, i.up);
    let speed: i64 = if sx != 0 && sy != 0 {
        DIAGONAL_AXIS_SPEED
    } else {
        AXIS_SPEED
    };
    Velocity { x: sx * speed, y: sy * speed }
}

fn displacement_of(v: i64, delta: u32) -> (r: i64)
    requires
        -AXIS_SPEED <= v <= AXIS_SPEED,
    ensures
        r == displacement(v as int, delta as int),
        -AXIS_SPEED * 4294967296 <= r <= AXIS_SPEED * 4294967296,
{
    let d = delta as i64;
    if v >= 0 {
        assert(0 <= v * d <= AXIS_SPEED * 4294967296) by (nonlinear_arith)
            requires
                0 <= v <= AXIS_SPEED,
                0 <= d < 4294967296,
        ;
        (v * d) / MICROS_PER_SECOND
    } else {
        let m = -v;
        assert(0 <= m * d <= AXIS_SPEED * 4294967296) by (nonlinear_arith)
            requires
                0 <= m <= AXIS_SPEED,
                0 <= d < 4294967296,
        ;
        -((m * d) / MICROS_PER_SECOND)
    }
}

fn clamp_axis(p: i64, max: i64) -> (r: i64)
    requires
        0 <= max,
    ensures
        r == clamp(p as int, max as int),
        0 <= r <= max,
{
    if p > max {
        max
    } else if p < 0 {
        0
    } else {
        p
    }
}

fn sign_i8(v: i64) -> (r: i8)
    ensures
        r == sign_of(v as int),
{
    if v > 0 {
        1
    } else if v < 0 {
        -1
    } else {
        0
    }
}

/// The facing that a velocity gives.
pub fn facing_from(v: Velocity) -> (r: Facing)
    ensures
        r == facing_of(v),
{
    if v.x != 0 {
        Facing::Side { flip_h: v.x < 0 }
    } else if v.y != 0 {
        Facing::Vertical { flip_v: v.y > 0 }
    } else {
        Facing::Keep
    }
}

impl Player {
    /// Coordinates and bounds stay within the limits that keep the
    /// arithmetic of a frame exact.
    pub open spec fn wf(&self) -> bool {
        &&& 0 <= self.bounds.x <= MAX_COORD
        &&& 0 <= self.bounds.y <= MAX_COORD
        &&& within_limits(self.position)
        &&& -AXIS_SPEED <= self.velocity.x <= AXIS_SPEED
        &&& -AXIS_SPEED <= self.velocity.y <= AXIS_SPEED
    }

    pub open spec fn started(self, at: Point) -> Player {
        Player { position: at, visible: true, monitoring: true, ..self }
    }

    /// A hidden, inactive player at the origin of a screen of size `bounds`.
    pub fn new(bounds: Point) -> (r: Player)
        requires
            0 <= bounds.x <= MAX_COORD,
            0 <= bounds.y <= MAX_COORD,
        ensures
            r.wf(),
            r.bounds == bounds,
            r.position == (Point { x: 0, y: 0 }),
            r.velocity == (Velocity { x: 0, y: 0 }),
            !r.monitoring,
            !r.visible,
    {
        Player {
            position: Point { x: 0, y: 0 },
            velocity: Velocity { x: 0, y: 0 },
            bounds,
            monitoring: false,
            visible: false,
        }
    }

    /// Puts the player at `at`, shows it and arms its collision detection.
    pub fn start(&mut self, at: Point)
        requires
            old(self).wf(),
            within_limits(at),
        ensures
            final(self).wf(),
            *final(self) == old(self).started(at),
    {
        self.position = at;
        self.visible = true;
        self.monitoring = true;
    }

    /// One frame of motion: the velocity follows the inputs, the position
    /// moves by it for `delta` microseconds and is clamped to the screen.
    pub fn update(&mut self, i: Intents, delta: u32) -> (r: MotionOutput)
        requires
            old(self).wf(),
        ensures
            final(self).wf(),
            final(self).velocity == velocity_of(i),
            final(self).position == moved(old(self).position, velocity_of(i), old(self).bounds, delta as int),
            in_bounds(final(self).position, final(self).bounds),
            final(self).bounds == old(self).bounds,
            final(self).monitoring == old(self).monitoring,
            final(self).visible == old(self).visible,
            r.moving == is_moving(velocity_of(i)),
            r.horizontal_sign == sign_x(i),
            r.vertical_sign == sign_y(i),
            r.facing == facing_of(velocity_of(i)),
    {
        let v = velocity_from(i);
        let dx = displacement_of(v.x, delta);
        let dy = displacement_of(v.y, delta);
        let x = clamp_axis(self.position.x + dx, self.bounds.x);
        let y = clamp_axis(self.position.y + dy, self.bounds.y);
        self.velocity = v;
        self.position = Point { x, y };
        let hs = sign_i8(v.x);
        let vs = sign_i8(v.y);
        MotionOutput { moving: v.x != 0 || v.y != 0, horizontal_sign: hs, vertical_sign: vs, facing: facing_from(v) }
    }
}

} // verus!
