//! The pattern rules: what each pattern makes of the groups it captured.
//!
//! Every rule is total. A numeral that does not fit, a size that would not
//! fit after scaling, a missing group or an unsupported combination gives
//! `None`, and the brick counts as unmapped.

use vstd::prelude::*;
use crate::number::{parse_u32, parse_u32_spec};
use crate::pattern::{group, group_at, has_group, present, Groups};
use crate::text::str_eq;
use crate::types::{BrickDesc, BrickMapping, DescModel};

verus! {

/// Target grid units per stud, along both horizontal axes.
pub const STUD: u32 = 5;

/// Target grid units per full brick height.
pub const BRICK_HEIGHT: u32 = 6;

/// Height of a plate ("flat"), in target grid units.
pub const FLAT_HEIGHT: u32 = 2;

/// Height of a half brick, in target grid units.
pub const HALF_HEIGHT: u32 = 4;

pub const DEFAULT_BRICK: &'static str = "PB_DefaultBrick";

pub const DEFAULT_TILE: &'static str = "PB_DefaultTile";

pub const RAMP: &'static str = "PB_DefaultRamp";

pub const RAMP_CORNER: &'static str = "PB_DefaultRampCorner";

pub const RAMP_INNER_CORNER: &'static str = "PB_DefaultRampInnerCorner";

pub const RAMP_INVERTED: &'static str = "PB_DefaultRampInverted";

pub const RAMP_CORNER_INVERTED: &'static str = "PB_DefaultRampCornerInverted";

pub const RAMP_INNER_CORNER_INVERTED: &'static str = "PB_DefaultRampInnerCornerInverted";

pub const CREST: &'static str = "PB_DefaultRampCrest";

pub const CREST_END: &'static str = "PB_DefaultRampCrestEnd";

pub const CREST_CORNER: &'static str = "PB_DefaultRampCrestCorner";

pub const WEDGE: &'static str = "PB_DefaultWedge";

pub const SIDE_WEDGE: &'static str = "PB_DefaultSideWedge";

/// The number that group `i` writes, if the group took part and writes one.
pub open spec fn number_at(groups: Seq<Option<Seq<char>>>, i: int) -> Option<u32> {
    match group_at(groups, i) {
        Some(text) => parse_u32_spec(text),
        None => None,
    }
}

/// `n` times `factor`, where there is an `n` and the product fits.
pub open spec fn times(n: Option<u32>, factor: u32) -> Option<u32> {
    match n {
        Some(value) => if value * factor <= u32::MAX {
            Some((value * factor) as u32)
        } else {
            None
        },
        None => None,
    }
}

/// A rule's result made of one descriptor.
pub open spec fn one(desc: DescModel) -> Option<Seq<DescModel>> {
    Some(seq![desc])
}

/// The number that group `i` writes.
pub fn number(groups: &Groups, i: usize) -> (n: Option<u32>)
    ensures
        n == number_at(groups.deep_view(), i as int),
{
    match group(groups, i) {
        Some(text) => parse_u32(text),
        None => None,
    }
}

/// `n` times `factor`, unless the product needs more than 32 bits.
pub fn scale(n: Option<u32>, factor: u32) -> (product: Option<u32>)
    ensures
        product == times(n, factor),
{
    match n {
        Some(value) => value.checked_mul(factor),
        None => None,
    }
}

fn some_single(desc: BrickDesc) -> (mapping: Option<BrickMapping>)
    ensures
        mapping.deep_view() == one(desc@),
{
    Some(BrickMapping::from(desc))
}

// Plain sizes: `WxL`, with a height `xZ`, `F` or `H`, and ` Print`.
//
// Groups: 1 width, 2 length, 3 height in bricks, 4 `F`, 5 `H`, 6 ` Print`.

/// The prints that leave a print brick blank: such a brick becomes a tile.
pub open spec fn is_blank_print(print: Seq<char>) -> bool {
    print == "Letters/-space"@ || print == "1x2f/blank"@ || print == "2x2f/blank"@
}

/// Whether `print` leaves a print brick blank.
pub fn blank_print(print: &str) -> (blank: bool)
    ensures
        blank == is_blank_print(print@),
{
    str_eq(print, "Letters/-space") || str_eq(print, "1x2f/blank") || str_eq(print, "2x2f/blank")
}

/// The height that a size name asks for, in target grid units: 2 for `F`,
/// 4 for `H`, six times `Z` for `xZ`, and 6 where the name gives none.
pub open spec fn thickness(groups: Seq<Option<Seq<char>>>) -> Option<u32> {
    if present(groups, 4) {
        Some(FLAT_HEIGHT)
    } else if present(groups, 5) {
        Some(HALF_HEIGHT)
    } else if present(groups, 3) {
        times(number_at(groups, 3), BRICK_HEIGHT)
    } else {
        Some(BRICK_HEIGHT)
    }
}

/// A print brick with a blank print becomes a tile, every other a brick.
pub open spec fn size_asset(groups: Seq<Option<Seq<char>>>, print: Seq<char>) -> Seq<char> {
    if present(groups, 6) && is_blank_print(print) {
        DEFAULT_TILE@
    } else {
        DEFAULT_BRICK@
    }
}

/// A print brick faces front as it is; a plain brick takes a quarter turn.
pub open spec fn size_rotation(groups: Seq<Option<Seq<char>>>) -> u8 {
    if present(groups, 6) {
        0
    } else {
        1
    }
}

/// What the rule for plain sizes gives: one descriptor, five grid units
/// per stud wide and long and `thickness` high, where the three numbers
/// can be read and fit in 32 bits.
pub open spec fn size_rule_spec(groups: Seq<Option<Seq<char>>>, print: Seq<char>) -> Option<
    Seq<DescModel>,
> {
    match (times(number_at(groups, 1), STUD), times(number_at(groups, 2), STUD), thickness(groups)) {
        (Some(x), Some(y), Some(z)) => one(
            DescModel::plain(size_asset(groups, print)).with_size((x, y, z)).with_rotation(
                size_rotation(groups),
            ),
        ),
        _ => None,
    }
}

/// The rule for plain sizes. `print` is the print that the source brick
/// carries.
pub fn size_rule(groups: &Groups, print: &str) -> (mapping: Option<BrickMapping>)
    ensures
        mapping.deep_view() == size_rule_spec(groups.deep_view(), print@),
{
    let x = scale(number(groups, 1), STUD);
    let y = scale(number(groups, 2), STUD);
    let z = if has_group(groups, 4) {
        Some(FLAT_HEIGHT)
    } else if has_group(groups, 5) {
        Some(HALF_HEIGHT)
    } else if has_group(groups, 3) {
        scale(number(groups, 3), BRICK_HEIGHT)
    } else {
        Some(BRICK_HEIGHT)
    };
    let is_print = has_group(groups, 6);
    let asset = if is_print && blank_print(print) {
        DEFAULT_TILE
    } else {
        DEFAULT_BRICK
    };
    let rotation: u8 = if is_print { 0 } else { 1 };
    match (x, y, z) {
        (Some(x), Some(y), Some(z)) => some_single(
            BrickDesc::new(asset).size((x, y, z)).rotation_offset(rotation),
        ),
        _ => None,
    }
}

/// What the rule for plain sizes decodes. Where it gives a mapping, the
/// name wrote a width and a length, the mapping is one descriptor, and its
/// size is five times the width, five times the length, and a height of 2
/// for `F`, 4 for `H`, six times `Z` for `xZ`, and 6 for a bare `WxL`.
pub proof fn lemma_size_rule_decodes(groups: Seq<Option<Seq<char>>>, print: Seq<char>)
    requires
        size_rule_spec(groups, print) is Some,
    ensures
        number_at(groups, 1) is Some,
        number_at(groups, 2) is Some,
        size_rule_spec(groups, print)->0.len() == 1,
        ({
            let size = size_rule_spec(groups, print)->0[0].size;
            &&& size.0 == 5 * number_at(groups, 1)->0
            &&& size.1 == 5 * number_at(groups, 2)->0
            &&& present(groups, 4) ==> size.2 == 2
            &&& !present(groups, 4) && present(groups, 5) ==> size.2 == 4
            &&& !present(groups, 4) && !present(groups, 5) && present(groups, 3) ==> {
                &&& number_at(groups, 3) is Some
                &&& size.2 == 6 * number_at(groups, 3)->0
            }
            &&& !present(groups, 4) && !present(groups, 5) && !present(groups, 3) ==> size.2 == 6
        }),
{
}

/// The rule for plain sizes gives a mapping exactly when the name wrote a
/// width and a length, and a height where it has one, that still fit in
/// 32 bits after scaling.
pub proof fn lemma_size_rule_succeeds(groups: Seq<Option<Seq<char>>>, print: Seq<char>)
    ensures
        size_rule_spec(groups, print) is Some <==> {
            &&& number_at(groups, 1) matches Some(width) && width * 5 <= u32::MAX
            &&& number_at(groups, 2) matches Some(length) && length * 5 <= u32::MAX
            &&& !present(groups, 4) && !present(groups, 5) && present(groups, 3) ==> (number_at(
                groups,
                3,
            ) matches Some(height) && height * 6 <= u32::MAX)
        },
{
}

// Ramps: `[-]A° [Inv ]Ramp[ Lx][ Corner]`.
//
// Groups: 1 `-`, 2 angle, 3 `Inv `, 4 length, 5 ` Corner`.

/// The asset of a ramp: upright or inverted, and plain, corner or inner
/// corner.
pub open spec fn ramp_asset(inverted: bool, inner: bool, corner: bool) -> Seq<char> {
    if inverted {
        if inner {
            RAMP_INNER_CORNER_INVERTED@
        } else if corner {
            RAMP_CORNER_INVERTED@
        } else {
            RAMP_INVERTED@
        }
    } else if inner {
        RAMP_INNER_CORNER@
    } else if corner {
        RAMP_CORNER@
    } else {
        RAMP@
    }
}

/// Depth and height of a ramp of the given angle, in target grid units.
pub open spec fn ramp_profile(angle: Option<Seq<char>>) -> Option<(u32, u32)> {
    match angle {
        Some(text) => if text == "25"@ {
            Some((15u32, 6u32))
        } else if text == "45"@ {
            Some((10u32, 6u32))
        } else if text == "72"@ {
            Some((10u32, 18u32))
        } else if text == "80"@ {
            Some((10u32, 30u32))
        } else {
            None
        },
        None => None,
    }
}

/// The length of a ramp whose depth is `depth`: the depth again, unless the
/// name gives a length. A corner takes no length.
pub open spec fn ramp_length(groups: Seq<Option<Seq<char>>>, depth: u32) -> Option<u32> {
    if present(groups, 4) {
        if present(groups, 5) {
            None
        } else {
            times(number_at(groups, 4), STUD)
        }
    } else {
        Some(depth)
    }
}

/// What the rule for ramps gives. An inner ramp that is no corner has no
/// counterpart, nor has a corner with a length.
pub open spec fn ramp_rule_spec(groups: Seq<Option<Seq<char>>>) -> Option<Seq<DescModel>> {
    let inverted = present(groups, 1);
    let inner = present(groups, 3);
    let corner = present(groups, 5);
    if inner && !corner {
        None
    } else {
        match ramp_profile(group_at(groups, 2)) {
            Some((x, z)) => match ramp_length(groups, x) {
                Some(y) => one(
                    DescModel::plain(ramp_asset(inverted, inner, corner)).with_size(
                        (x, y, z),
                    ).with_rotation(0),
                ),
                None => None,
            },
            None => None,
        }
    }
}

/// The rule for ramps.
pub fn ramp_rule(groups: &Groups) -> (mapping: Option<BrickMapping>)
    ensures
        mapping.deep_view() == ramp_rule_spec(groups.deep_view()),
{
    let inverted = has_group(groups, 1);
    let inner = has_group(groups, 3);
    let corner = has_group(groups, 5);
    if inner && !corner {
        return None;
    }
    let asset = if inverted {
        if inner {
            RAMP_INNER_CORNER_INVERTED
        } else if corner {
            RAMP_CORNER_INVERTED
        } else {
            RAMP_INVERTED
        }
    } else if inner {
        RAMP_INNER_CORNER
    } else if corner {
        RAMP_CORNER
    } else {
        RAMP
    };
    let profile: Option<(u32, u32)> = match group(groups, 2) {
        Some(angle) => if str_eq(angle, "25") {
            Some((15, 6))
        } else if str_eq(angle, "45") {
            Some((10, 6))
        } else if str_eq(angle, "72") {
            Some((10, 18))
        } else if str_eq(angle, "80") {
            Some((10, 30))
        } else {
            None
        },
        None => None,
    };
    let (x, z) = match profile {
        Some(profile) => profile,
        None => {
            return None;
        },
    };
    let length = if has_group(groups, 4) {
        if corner {
            None
        } else {
            scale(number(groups, 4), STUD)
        }
    } else {
        Some(x)
    };
    match length {
        Some(y) => some_single(BrickDesc::new(asset).size((x, y, z)).rotation_offset(0)),
        None => None,
    }
}

// Crests: `A° Crest End`, `A° Crest Corner`, `A° Crest Lx`.
//
// Groups: 1 angle, 2 `End`, 3 `Corner`, 4 length.

/// Height of a crest of the given angle, and how far it is moved along the
/// vertical axis to make up for its base.
pub open spec fn crest_profile(angle: Option<Seq<char>>) -> Option<(u32, i32)> {
    match angle {
        Some(text) => if text == "25"@ {
            Some((4u32, -2i32))
        } else if text == "45"@ {
            Some((6u32, 0i32))
        } else {
            None
        },
        None => None,
    }
}

/// Asset, footprint and rotation offset of a crest.
pub open spec fn crest_shape(groups: Seq<Option<Seq<char>>>) -> Option<(Seq<char>, u32, u32, u8)> {
    if present(groups, 2) {
        Some((CREST_END@, 10u32, 5u32, 2u8))
    } else if present(groups, 3) {
        Some((CREST_CORNER@, 10u32, 10u32, 0u8))
    } else {
        match times(number_at(groups, 4), STUD) {
            Some(y) => Some((CREST@, 10u32, y, 0u8)),
            None => None,
        }
    }
}

/// What the rule for crests gives.
pub open spec fn crest_rule_spec(groups: Seq<Option<Seq<char>>>) -> Option<Seq<DescModel>> {
    match (crest_profile(group_at(groups, 1)), crest_shape(groups)) {
        (Some((z, lift)), Some((asset, x, y, rotation))) => one(
            DescModel::plain(asset).with_size((x, y, z)).with_rotation(rotation).with_offset(
                (0, 0, lift),
            ),
        ),
        _ => None,
    }
}

/// The rule for crests.
pub fn crest_rule(groups: &Groups) -> (mapping: Option<BrickMapping>)
    ensures
        mapping.deep_view() == crest_rule_spec(groups.deep_view()),
{
    let profile: Option<(u32, i32)> = match group(groups, 1) {
        Some(angle) => if str_eq(angle, "25") {
            Some((4, -2))
        } else if str_eq(angle, "45") {
            Some((6, 0))
        } else {
            None
        },
        None => None,
    };
    let (z, lift) = match profile {
        Some(profile) => profile,
        None => {
            return None;
        },
    };
    let (asset, x, y, rotation): (&'static str, u32, u32, u8) = if has_group(groups, 2) {
        (CREST_END, 10, 5, 2)
    } else if has_group(groups, 3) {
        (CREST_CORNER, 10, 10, 0)
    } else {
        match scale(number(groups, 4), STUD) {
            Some(y) => (CREST, 10, y, 0),
            None => {
                return None;
            },
        }
    };
    some_single(
        BrickDesc::new(asset).size((x, y, z)).rotation_offset(rotation).offset((0, 0, lift)),
    )
}

// Tiles `WxLF Tile` and baseplates `WxL Base`. Groups: 1 width, 2 length.

/// What the rules for tiles and baseplates give: one descriptor of
/// `asset`, a plate high.
pub open spec fn plate_rule_spec(groups: Seq<Option<Seq<char>>>, asset: Seq<char>) -> Option<
    Seq<DescModel>,
> {
    match (times(number_at(groups, 1), STUD), times(number_at(groups, 2), STUD)) {
        (Some(x), Some(y)) => one(DescModel::plain(asset).with_size((x, y, FLAT_HEIGHT))),
        _ => None,
    }
}

fn plate_rule(groups: &Groups, asset: &'static str) -> (mapping: Option<BrickMapping>)
    ensures
        mapping.deep_view() == plate_rule_spec(groups.deep_view(), asset@),
{
    match (scale(number(groups, 1), STUD), scale(number(groups, 2), STUD)) {
        (Some(x), Some(y)) => some_single(BrickDesc::new(asset).size((x, y, FLAT_HEIGHT))),
        _ => None,
    }
}

/// The rule for tiles.
pub fn tile_rule(groups: &Groups) -> (mapping: Option<BrickMapping>)
    ensures
        mapping.deep_view() == plate_rule_spec(groups.deep_view(), DEFAULT_TILE@),
{
    plate_rule(groups, DEFAULT_TILE)
}

/// The rule for baseplates.
pub fn base_rule(groups: &Groups) -> (mapping: Option<BrickMapping>)
    ensures
        mapping.deep_view() == plate_rule_spec(groups.deep_view(), DEFAULT_BRICK@),
{
    plate_rule(groups, DEFAULT_BRICK)
}

// Cubes `Nx Cube`. Groups: 1 size.

/// What the rule for cubes gives: a brick of the same extent along all
/// three axes.
pub open spec fn cube_rule_spec(groups: Seq<Option<Seq<char>>>) -> Option<Seq<DescModel>> {
    match times(number_at(groups, 1), STUD) {
        Some(side) => one(DescModel::plain(DEFAULT_BRICK@).with_size((side, side, side))),
        None => None,
    }
}

/// The rule for cubes.
pub fn cube_rule(groups: &Groups) -> (mapping: Option<BrickMapping>)
    ensures
        mapping.deep_view() == cube_rule_spec(groups.deep_view()),
{
    match scale(number(groups, 1), STUD) {
        Some(side) => some_single(BrickDesc::new(DEFAULT_BRICK).size((side, side, side))),
        None => None,
    }
}

// Shapes with a height modifier: `Nx Shape[ Steep| 3/4h| 1/2h| 1/4h]`.
//
// Groups: 1 size, 2 `Cube`, 3 `Ramp`, 4 `CornerA`, 5 `CornerB`, 6 `CornerC`,
// 7 `CornerD`, 8 `Wedge`, 9 ` Steep`, 10 ` 3/4h`, 11 ` 1/2h`, 12 ` 1/4h`.

/// The height in studs of a shape of `size` studs. Three quarters of the
/// height is not supported.
pub open spec fn variant_height(groups: Seq<Option<Seq<char>>>, size: u32) -> Option<u32> {
    if present(groups, 9) {
        times(Some(size), 2)
    } else if present(groups, 10) {
        None
    } else if present(groups, 11) {
        Some(size / 2)
    } else if present(groups, 12) {
        Some(size / 4)
    } else {
        Some(size)
    }
}

/// Asset and rotation offset of a shape. `CornerA` has no counterpart;
/// `CornerB` is approximated by the inner corner.
pub open spec fn variant_shape(groups: Seq<Option<Seq<char>>>) -> Option<(Seq<char>, u8)> {
    if present(groups, 2) {
        Some((DEFAULT_BRICK@, 1u8))
    } else if present(groups, 8) {
        Some((SIDE_WEDGE@, 2u8))
    } else if present(groups, 3) {
        Some((WEDGE@, 3u8))
    } else if present(groups, 4) {
        None
    } else if present(groups, 5) {
        Some((RAMP_INNER_CORNER@, 2u8))
    } else if present(groups, 6) {
        Some((RAMP_CORNER@, 2u8))
    } else if present(groups, 7) {
        Some((RAMP_INNER_CORNER@, 2u8))
    } else {
        None
    }
}

/// What the rule for shapes with a height modifier gives.
pub open spec fn variant_rule_spec(groups: Seq<Option<Seq<char>>>) -> Option<Seq<DescModel>> {
    match number_at(groups, 1) {
        Some(size) => match (
            times(Some(size), STUD),
            times(variant_height(groups, size), STUD),
            variant_shape(groups),
        ) {
            (Some(side), Some(z), Some((asset, rotation))) => one(
                DescModel::plain(asset).with_size((side, side, z)).with_rotation(rotation),
            ),
            _ => None,
        },
        None => None,
    }
}

/// The rule for shapes with a height modifier.
pub fn variant_rule(groups: &Groups) -> (mapping: Option<BrickMapping>)
    ensures
        mapping.deep_view() == variant_rule_spec(groups.deep_view()),
{
    let size = match number(groups, 1) {
        Some(size) => size,
        None => {
            return None;
        },
    };
    let height = if has_group(groups, 9) {
        scale(Some(size), 2)
    } else if has_group(groups, 10) {
        None
    } else if has_group(groups, 11) {
        Some(size / 2)
    } else if has_group(groups, 12) {
        Some(size / 4)
    } else {
        Some(size)
    };
    let shape: Option<(&'static str, u8)> = if has_group(groups, 2) {
        Some((DEFAULT_BRICK, 1))
    } else if has_group(groups, 8) {
        Some((SIDE_WEDGE, 2))
    } else if has_group(groups, 3) {
        Some((WEDGE, 3))
    } else if has_group(groups, 4) {
        None
    } else if has_group(groups, 5) {
        Some((RAMP_INNER_CORNER, 2))
    } else if has_group(groups, 6) {
        Some((RAMP_CORNER, 2))
    } else if has_group(groups, 7) {
        Some((RAMP_INNER_CORNER, 2))
    } else {
        None
    };
    match (scale(Some(size), STUD), scale(height, STUD), shape) {
        (Some(side), Some(z), Some((asset, rotation))) => some_single(
            BrickDesc::new(asset).size((side, side, z)).rotation_offset(rotation),
        ),
        _ => None,
    }
}

} // verus!
