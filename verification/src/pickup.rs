//! When a player reaches an item, and where the item's successor appears.

use vstd::prelude::*;
use crate::vector::Point;
use crate::vector::Vec2;

verus! {

/// The distance between two coordinates on one axis.
pub open spec fn gap(a: int, b: int) -> int {
    if a >= b {
        a - b
    } else {
        b - a
    }
}

/// Whether `item` lies in the axis-aligned square around `player` that
/// reaches `threshold` to each side: on neither axis are the two further
/// apart than `threshold`.
pub open spec fn within_reach(player: Point, item: Point, threshold: int) -> bool {
    gap(player.x, item.x) <= threshold && gap(player.y, item.y) <= threshold
}

/// Whether two coordinates are at most `threshold` apart.
fn axis_within(a: i64, b: i64, threshold: i64) -> (near: bool)
    ensures
        near == (gap(a as int, b as int) <= threshold),
{
    let apart: i128 = if a >= b {
        a as i128 - b as i128
    } else {
        b as i128 - a as i128
    };
    apart <= threshold as i128
}

/// Tests whether a player at `player_position` picks up an item at
/// `item_position`: whether on every axis the two are at most `threshold`
/// apart.
pub fn check_pickup(player_position: Vec2, item_position: Vec2, threshold: i64) -> (picked: bool)
    ensures
        picked == within_reach(player_position@, item_position@, threshold as int),
        picked <==> gap(player_position.x as int, item_position.x as int) <= threshold && gap(
            player_position.y as int,
            item_position.y as int,
        ) <= threshold,
{
    axis_within(player_position.x, item_position.x, threshold) && axis_within(
        player_position.y,
        item_position.y,
        threshold,
    )
}

/// The pickup test does not care which of the two positions is the player's.
pub proof fn lemma_reach_symmetric(a: Point, b: Point, threshold: int)
    ensures
        within_reach(a, b, threshold) == within_reach(b, a, threshold),
{
}

/// Nothing is within a negative reach, and a position is within every other
/// reach of itself.
pub proof fn lemma_reach_of_self(a: Point, b: Point, threshold: int)
    ensures
        threshold < 0 ==> !within_reach(a, b, threshold),
        threshold >= 0 ==> within_reach(a, a, threshold),
{
}

/// The number of values that a random sample can take.
pub open spec fn sample_span() -> int {
    0x1_0000_0000
}

/// The coordinate that a sample stands for in a spawn area that reaches
/// `range` to each side of the origin: the sample, read as a fraction of
/// `sample_span()`, taken of the area's width `2 * range`, rounded down and
/// counted from the area's lower edge.
pub open spec fn spawn_coordinate_spec(sample: int, range: int) -> int {
    sample * (2 * range) / sample_span() - range
}

/// The point that two samples stand for, one for each axis.
pub open spec fn spawn_point(sample_x: int, sample_y: int, range: int) -> Point {
    Point { x: spawn_coordinate_spec(sample_x, range), y: spawn_coordinate_spec(sample_y, range) }
}

/// Whether a point lies in the spawn area of the given range.
pub open spec fn in_spawn_area(p: Point, range: int) -> bool {
    -range <= p.x <= range && -range <= p.y <= range
}

/// A sample never leads out of the spawn area: the lowest sample leads to
/// its lower edge, and none to its upper edge unless the area is a point.
pub proof fn lemma_spawn_coordinate_bounds(sample: int, range: int)
    requires
        0 <= sample < sample_span(),
        0 <= range,
    ensures
        -range <= spawn_coordinate_spec(sample, range) <= range,
        range > 0 ==> spawn_coordinate_spec(sample, range) < range,
        spawn_coordinate_spec(0, range) == -range,
{
    let width: int = 2 * range;
    assert(0 <= sample * width) by (nonlinear_arith)
        requires
            0 <= sample,
            0 <= width,
    ;
    assert(sample * width <= sample_span() * width) by (nonlinear_arith)
        requires
            0 <= sample < sample_span(),
            0 <= width,
    ;
    assert(range > 0 ==> sample * width < sample_span() * width) by (nonlinear_arith)
        requires
            0 <= sample < sample_span(),
            width == 2 * range,
    ;
    assert(0 <= sample * width / 0x1_0000_0000 <= width) by (nonlinear_arith)
        requires
            0 <= sample * width <= 0x1_0000_0000 * width,
    ;
    assert(range > 0 ==> sample * width / 0x1_0000_0000 < width) by (nonlinear_arith)
        requires
            range > 0 ==> 0 <= sample * width < 0x1_0000_0000 * width,
    ;
}

/// Maps a random sample to a coordinate of the spawn area that reaches
/// `range` to each side of the origin.
pub fn spawn_coordinate(sample: u32, range: u32) -> (coordinate: i64)
    ensures
        coordinate == spawn_coordinate_spec(sample as int, range as int),
        -range <= coordinate <= range,
        range > 0 ==> coordinate < range,
{
    proof {
        lemma_spawn_coordinate_bounds(sample as int, range as int);
    }
    let width: u64 = 2 * (range as u64);
    assert(0 <= sample * width <= 0xffff_ffff * 0x1_ffff_fffe) by (nonlinear_arith)
        requires
            0 <= sample <= 0xffff_ffff,
            0 <= width <= 0x1_ffff_fffe,
    ;
    let scaled: u128 = sample as u128 * width as u128;
    let offset: u128 = scaled / 0x1_0000_0000u128;
    (offset as i128 - range as i128) as i64
}

/// Maps two random samples to a position in the spawn area.
pub fn spawn_position(sample_x: u32, sample_y: u32, range: u32) -> (position: Vec2)
    ensures
        position@ == spawn_point(sample_x as int, sample_y as int, range as int),
        in_spawn_area(position@, range as int),
{
    Vec2 { x: spawn_coordinate(sample_x, range), y: spawn_coordinate(sample_y, range) }
}

} // verus!
