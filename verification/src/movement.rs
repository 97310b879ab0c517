//! Turning held keys into a direction, and a direction into motion.

use vstd::prelude::*;
use crate::vector::Point;
use crate::vector::Vec2;

verus! {

/// Which of the four movement keys are held during a tick.
#[derive(Clone, Copy, Debug, PartialEq, Eq, Structural)]
pub struct InputState {
    pub up: bool,
    pub down: bool,
    pub left: bool,
    pub right: bool,
}

/// What one axis comes to when the key towards its positive end and the key
/// towards its negative end are held or not: each held key pulls by one, so
/// two opposing keys cancel.
pub open spec fn axis_pull(positive: bool, negative: bool) -> int {
    (if positive { 1int } else { 0int }) - (if negative { 1int } else { 0int })
}

/// The movement direction that a set of held keys asks for. Right and up are
/// the positive ends of the axes. Diagonals are not normalised.
pub open spec fn direction_of(input: InputState) -> Point {
    Point { x: axis_pull(input.right, input.left), y: axis_pull(input.up, input.down) }
}

/// Computes the movement direction for the keys that are held.
pub fn compute_direction(input: InputState) -> (direction: Vec2)
    ensures
        direction@ == direction_of(input),
        direction@ == facing_spec(direction@).vector(),
        input.left == input.right ==> direction.x == 0,
        input.up == input.down ==> direction.y == 0,
{
    let mut x: i64 = 0;
    let mut y: i64 = 0;
    if input.up {
        y = y + 1;
    }
    if input.down {
        y = y - 1;
    }
    if input.right {
        x = x + 1;
    }
    if input.left {
        x = x - 1;
    }
    Vec2 { x, y }
}

/// The way a player faces, told from the direction of its last movement.
#[derive(Clone, Copy, Debug, PartialEq, Eq, Structural)]
pub enum Direction {
    North,
    South,
    East,
    West,
    NorthEast,
    NorthWest,
    SouthEast,
    SouthWest,
    Still,
}

impl Default for Direction {
    /// A player that has not moved yet faces east.
    fn default() -> (facing: Direction)
        ensures
            facing == Direction::East,
    {
        Direction::East
    }
}

impl Direction {
    /// The canonical vector of a facing: one step along each axis that the
    /// facing names, and the zero vector for `Still`.
    pub open spec fn vector(self) -> Point {
        match self {
            Direction::North => Point { x: 0, y: 1 },
            Direction::South => Point { x: 0, y: -1 },
            Direction::East => Point { x: 1, y: 0 },
            Direction::West => Point { x: -1, y: 0 },
            Direction::NorthEast => Point { x: 1, y: 1 },
            Direction::NorthWest => Point { x: -1, y: 1 },
            Direction::SouthEast => Point { x: 1, y: -1 },
            Direction::SouthWest => Point { x: -1, y: -1 },
            Direction::Still => Point { x: 0, y: 0 },
        }
    }
}

/// The facing that belongs to a direction vector: the one whose canonical
/// vector it is, and `Still` for every other vector.
pub open spec fn facing_spec(direction: Point) -> Direction {
    if direction.x == 0 && direction.y == 1 {
        Direction::North
    } else if direction.x == 0 && direction.y == -1 {
        Direction::South
    } else if direction.x == 1 && direction.y == 0 {
        Direction::East
    } else if direction.x == -1 && direction.y == 0 {
        Direction::West
    } else if direction.x == 1 && direction.y == 1 {
        Direction::NorthEast
    } else if direction.x == -1 && direction.y == 1 {
        Direction::NorthWest
    } else if direction.x == 1 && direction.y == -1 {
        Direction::SouthEast
    } else if direction.x == -1 && direction.y == -1 {
        Direction::SouthWest
    } else {
        Direction::Still
    }
}

/// Derives the facing from the direction of the current tick alone.
pub fn facing_of(direction: Vec2) -> (facing: Direction)
    ensures
        facing == facing_spec(direction@),
{
    if direction.x == 0 && direction.y == 1 {
        Direction::North
    } else if direction.x == 0 && direction.y == -1 {
        Direction::South
    } else if direction.x == 1 && direction.y == 0 {
        Direction::East
    } else if direction.x == -1 && direction.y == 0 {
        Direction::West
    } else if direction.x == 1 && direction.y == 1 {
        Direction::NorthEast
    } else if direction.x == -1 && direction.y == 1 {
        Direction::NorthWest
    } else if direction.x == 1 && direction.y == -1 {
        Direction::SouthEast
    } else if direction.x == -1 && direction.y == -1 {
        Direction::SouthWest
    } else {
        Direction::Still
    }
}

/// Whether the sprite is drawn mirrored after moving in `direction`, given
/// whether it was before: movement to the right mirrors it, movement to the
/// left draws it plainly, and movement along neither keeps what was.
pub open spec fn mirror_spec(direction: Point, previous: bool) -> bool {
    if direction.x > 0 {
        true
    } else if direction.x < 0 {
        false
    } else {
        previous
    }
}

/// Derives the horizontal flip from the direction of the current tick and
/// the flip of the tick before.
pub fn mirror_of(direction: Vec2, previous: bool) -> (mirrored: bool)
    ensures
        mirrored == mirror_spec(direction@, previous),
{
    if direction.x > 0 {
        true
    } else if direction.x < 0 {
        false
    } else {
        previous
    }
}

/// The distance covered when moving along `direction` at `speed` for `dt`.
pub open spec fn displacement(direction: Point, speed: int, dt: int) -> Point {
    Point { x: direction.x * speed * dt, y: direction.y * speed * dt }
}

/// Where a body at `position` is after moving along `direction` at `speed`
/// for `dt`.
pub open spec fn integrate_spec(position: Point, direction: Point, speed: int, dt: int) -> Point {
    position.plus(displacement(direction, speed, dt))
}

/// One coordinate of the new position, in a type wide enough to hold it
/// whatever the arguments are.
fn integrate_axis(position: i64, direction: i64, speed: u32, dt: u32) -> (target: i128)
    ensures
        target == position + direction * speed * dt,
{
    assert(0 <= speed * dt <= 0xffff_ffff * 0xffff_ffff) by (nonlinear_arith)
        requires
            0 <= speed <= 0xffff_ffff,
            0 <= dt <= 0xffff_ffff,
    ;
    let step: i128 = speed as i128 * dt as i128;
    assert(direction * speed * dt == direction * step) by (nonlinear_arith)
        requires
            step == speed * dt,
    ;
    assert(-0x8000_0000_0000_0000 * (0xffff_ffff * 0xffff_ffff) <= direction * step
        <= 0x8000_0000_0000_0000 * (0xffff_ffff * 0xffff_ffff)) by (nonlinear_arith)
        requires
            -0x8000_0000_0000_0000 <= direction < 0x8000_0000_0000_0000,
            0 <= step <= 0xffff_ffff * 0xffff_ffff,
    ;
    let travelled: i128 = direction as i128 * step;
    position as i128 + travelled
}

/// Moves `position` along `direction` at `speed` for `dt`, where the new
/// position can be held by a [`Vec2`]; `None` where it cannot.
pub fn checked_integrate(position: Vec2, direction: Vec2, speed: u32, dt: u32) -> (moved: Option<
    Vec2,
>)
    ensures
        moved is Some <==> integrate_spec(position@, direction@, speed as int, dt as int).fits(),
        moved matches Some(v) ==> v@ == integrate_spec(
            position@,
            direction@,
            speed as int,
            dt as int,
        ),
{
    let x: i128 = integrate_axis(position.x, direction.x, speed, dt);
    let y: i128 = integrate_axis(position.y, direction.y, speed, dt);
    if x < i64::MIN as i128 || x > i64::MAX as i128 || y < i64::MIN as i128 || y > i64::MAX as i128 {
        None
    } else {
        Some(Vec2 { x: x as i64, y: y as i64 })
    }
}

/// Moves `position` along `direction` at `speed` for `dt`:
/// the new position is `position + direction * speed * dt`.
pub fn integrate(position: Vec2, direction: Vec2, speed: u32, dt: u32) -> (moved: Vec2)
    requires
        integrate_spec(position@, direction@, speed as int, dt as int).fits(),
    ensures
        moved@ == integrate_spec(position@, direction@, speed as int, dt as int),
{
    let x: i128 = integrate_axis(position.x, direction.x, speed, dt);
    let y: i128 = integrate_axis(position.y, direction.y, speed, dt);
    Vec2 { x: x as i64, y: y as i64 }
}

/// Every combination of held keys gives one of the nine canonical vectors,
/// namely the vector of the facing derived from it, and an axis whose two
/// keys are both held comes to zero.
pub proof fn lemma_direction_is_canonical(input: InputState)
    ensures
        direction_of(input) == facing_spec(direction_of(input)).vector(),
        input.left && input.right ==> direction_of(input).x == 0,
        input.up && input.down ==> direction_of(input).y == 0,
        !input.up && !input.down && !input.left && !input.right ==> direction_of(input)
            == Point::zero(),
{
}

/// The nine canonical vectors are told apart: the facing derived from the
/// vector of a facing is that facing.
pub proof fn lemma_facing_of_canonical_vector(facing: Direction)
    ensures
        facing_spec(facing.vector()) == facing,
{
}

/// Displacement is linear in the elapsed time: `k` times the time gives `k`
/// times the displacement. So twice the time gives twice the displacement,
/// and no time gives none.
pub proof fn lemma_displacement_linear_in_dt(direction: Point, speed: int, dt: int, k: int)
    ensures
        displacement(direction, speed, k * dt) == displacement(direction, speed, dt).scaled(k),
        displacement(direction, speed, 2 * dt) == displacement(direction, speed, dt).plus(
            displacement(direction, speed, dt),
        ),
        displacement(direction, speed, 0) == Point::zero(),
{
    assert(direction.x * speed * (k * dt) == direction.x * speed * dt * k) by (nonlinear_arith);
    assert(direction.y * speed * (k * dt) == direction.y * speed * dt * k) by (nonlinear_arith);
    assert(direction.x * speed * (2 * dt) == direction.x * speed * dt + direction.x * speed * dt)
        by (nonlinear_arith);
    assert(direction.y * speed * (2 * dt) == direction.y * speed * dt + direction.y * speed * dt)
        by (nonlinear_arith);
}

/// Integration is linear in the elapsed time: over twice the time a body gets
/// twice as far from where it started, and over no time it stays.
pub proof fn lemma_integrate_linear_in_dt(position: Point, direction: Point, speed: int, dt: int)
    ensures
        integrate_spec(position, direction, speed, 2 * dt) == integrate_spec(
            integrate_spec(position, direction, speed, dt),
            direction,
            speed,
            dt,
        ),
        integrate_spec(position, direction, speed, 2 * dt) == position.plus(
            displacement(direction, speed, dt).scaled(2),
        ),
        integrate_spec(position, direction, speed, 0) == position,
{
    lemma_displacement_linear_in_dt(direction, speed, dt, 2);
}

} // verus!
