//! The change of frame: axis swap, rotation index, and the turning of a
//! descriptor's local offset by the placed rotation of its source brick.

use vstd::prelude::*;
use crate::types::BrickDesc;

verus! {

/// One quarter turn of a horizontal offset: `(x, y)` goes to `(-y, x)`.
pub open spec fn quarter_turn(p: (int, int)) -> (int, int) {
    (-p.1, p.0)
}

/// `n` quarter turns of `p`, one after the other.
pub open spec fn turned(p: (int, int), n: nat) -> (int, int)
    decreases n,
{
    if n == 0 {
        p
    } else {
        quarter_turn(turned(p, (n - 1) as nat))
    }
}

/// The rotation index of a target brick: the sum of both indices, modulo 4.
pub open spec fn composed_rotation(angle: u8, rotation_offset: u8) -> int {
    (angle + rotation_offset) % 4
}

/// Where a target brick stands: the source position with its two horizontal
/// axes swapped, plus the local offset turned by the source brick's rotation.
/// The vertical part of the offset is added as it is.
pub open spec fn placed_position(position: (i32, i32, i32), angle: u8, offset: (i32, i32, i32)) -> (
    int,
    int,
    int,
) {
    let local = turned((offset.0 as int, offset.1 as int), angle as nat);
    (position.1 + local.0, position.0 + local.1, position.2 + offset.2)
}

/// The grid position and rotation index of one target brick.
#[derive(Clone, Copy, Debug, PartialEq, Eq)]
pub struct Placement {
    pub position: (i64, i64, i64),
    pub rotation: u8,
}

/// Four quarter turns bring every offset back to where it was.
pub proof fn lemma_four_turns(p: (int, int))
    ensures
        turned(p, 4) == p,
{
    reveal_with_fuel(turned, 5);
}

/// Turning is periodic: four more quarter turns change nothing.
pub proof fn lemma_turn_period(p: (int, int), n: nat)
    ensures
        turned(p, n + 4) == turned(p, n),
    decreases n,
{
    if n == 0 {
        lemma_four_turns(p);
    } else {
        lemma_turn_period(p, (n - 1) as nat);
    }
}

/// Only the rotation index modulo 4 matters.
pub proof fn lemma_turn_mod_four(p: (int, int), n: nat)
    ensures
        turned(p, n) == turned(p, n % 4),
    decreases n,
{
    if n >= 4 {
        lemma_turn_mod_four(p, (n - 4) as nat);
        lemma_turn_period(p, (n - 4) as nat);
    }
}

/// A turn keeps the shape of a group of offsets: the difference of two turned
/// offsets is the turned difference.
pub proof fn lemma_turn_difference(p: (int, int), q: (int, int), n: nat)
    ensures
        turned(p, n).0 - turned(q, n).0 == turned((p.0 - q.0, p.1 - q.1), n).0,
        turned(p, n).1 - turned(q, n).1 == turned((p.0 - q.0, p.1 - q.1), n).1,
    decreases n,
{
    if n > 0 {
        lemma_turn_difference(p, q, (n - 1) as nat);
    }
}

/// A turned offset holds the same two magnitudes as the offset itself.
pub proof fn lemma_turn_bounds(p: (int, int), n: nat, bound: int)
    requires
        -bound <= p.0 <= bound,
        -bound <= p.1 <= bound,
    ensures
        -bound <= turned(p, n).0 <= bound,
        -bound <= turned(p, n).1 <= bound,
    decreases n,
{
    if n > 0 {
        lemma_turn_bounds(p, (n - 1) as nat, bound);
    }
}

/// One quarter turn.
pub fn rotate_90_2d(p: (i64, i64)) -> (q: (i64, i64))
    requires
        p.1 > i64::MIN,
    ensures
        (q.0 as int, q.1 as int) == quarter_turn((p.0 as int, p.1 as int)),
{
    (-p.1, p.0)
}

/// Turns a local offset by `angle` quarter turns.
pub fn rotate_offset(offset: (i32, i32), angle: u8) -> (local: (i64, i64))
    ensures
        (local.0 as int, local.1 as int) == turned((offset.0 as int, offset.1 as int), angle as nat),
{
    let ghost start = (offset.0 as int, offset.1 as int);
    let mut local: (i64, i64) = (offset.0 as i64, offset.1 as i64);
    let mut done: u8 = 0;
    while done < angle
        invariant
            done <= angle,
            start == (offset.0 as int, offset.1 as int),
            (local.0 as int, local.1 as int) == turned(start, done as nat),
        decreases angle - done,
    {
        proof {
            lemma_turn_bounds(start, done as nat, 0x8000_0000);
        }
        local = rotate_90_2d(local);
        done = done + 1;
    }
    local
}

/// The rotation index of the target brick.
pub fn compose_rotation(angle: u8, rotation_offset: u8) -> (rotation: u8)
    ensures
        rotation == composed_rotation(angle, rotation_offset),
        rotation < 4,
{
    let sum: u16 = angle as u16 + rotation_offset as u16;
    (sum % 4) as u8
}

/// Places one descriptor of a source brick that stands at `position` (in
/// target grid units, source axis order) with rotation index `angle`.
pub fn transform(position: (i32, i32, i32), angle: u8, desc: &BrickDesc) -> (placement: Placement)
    ensures
        placement.rotation == composed_rotation(angle, desc.rotation_offset),
        (placement.position.0 as int, placement.position.1 as int, placement.position.2 as int)
            == placed_position(position, angle, desc.offset),
{
    let local = rotate_offset((desc.offset.0, desc.offset.1), angle);
    proof {
        lemma_turn_bounds((desc.offset.0 as int, desc.offset.1 as int), angle as nat, 0x8000_0000);
    }
    Placement {
        position: (
            position.1 as i64 + local.0,
            position.0 as i64 + local.1,
            position.2 as i64 + desc.offset.2 as i64,
        ),
        rotation: compose_rotation(angle, desc.rotation_offset),
    }
}

/// With rotation index 0 and no local offset, the target position is the
/// source position with its two horizontal axes swapped.
pub proof fn lemma_axis_swap(position: (i32, i32, i32))
    ensures
        placed_position(position, 0, (0, 0, 0)) == (
            position.1 as int,
            position.0 as int,
            position.2 as int,
        ),
{
}

/// Two descriptors of one source brick keep their relative horizontal
/// placement, turned by the brick's rotation; the vertical distance is that
/// of their offsets.
pub proof fn lemma_relative_placement(
    position: (i32, i32, i32),
    angle: u8,
    first: (i32, i32, i32),
    second: (i32, i32, i32),
)
    ensures
        ({
            let a = placed_position(position, angle, first);
            let b = placed_position(position, angle, second);
            let between = turned((first.0 - second.0, first.1 - second.1), angle as nat);
            &&& a.0 - b.0 == between.0
            &&& a.1 - b.1 == between.1
            &&& a.2 - b.2 == first.2 - second.2
        }),
{
    lemma_turn_difference(
        (first.0 as int, first.1 as int),
        (second.0 as int, second.1 as int),
        angle as nat,
    );
}

} // verus!
