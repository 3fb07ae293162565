//! The rule table: from a brick's name to its descriptors.
//!
//! Literal rules come first. Then the patterns are tried in a fixed order,
//! and the first one that matches the name decides: where its rule gives
//! nothing, the brick is unmapped, and no later pattern is asked.

use vstd::prelude::*;
use crate::literal::{
    lemma_literal_nonempty, lemma_rows_named_turn, lemma_rows_turn_less_than_four, literal,
    literal_rule, LITERALS,
};
use crate::pattern::{captures, find_captures};
use crate::rules::{
    base_rule, crest_rule, crest_rule_spec, cube_rule, cube_rule_spec, plate_rule_spec, ramp_rule,
    ramp_rule_spec, size_rule, size_rule_spec, tile_rule, variant_rule, variant_rule_spec,
    DEFAULT_BRICK, DEFAULT_TILE,
};
use crate::types::{BrickMapping, DescModel, SourceBrick};

verus! {

/// Plain sizes: `4x6`, `2x2F`, `1x2H`, `3x3x5`, each with or without
/// ` Print`.
pub const SIZE_PATTERN: &'static str = r"^(\d+)x(\d+)(?:x(\d+)|([Ff])|([Hh]))?( Print)?$";

/// Ramps: `45° Ramp`, `-72° Ramp Corner`, `25° Inv Ramp Corner`,
/// `45° Ramp 4x`.
pub const RAMP_PATTERN: &'static str =
    r"^(-)?(25|45|72|80)° (Inv )?Ramp(?: (\d+)x)?( Corner)?(?: Print)?$";

/// Crests: `25° Crest End`, `45° Crest Corner`, `45° Crest 4x`. The one
/// pattern that may match anywhere in the name.
pub const CREST_PATTERN: &'static str =
    r"(?P<angle>25|45)° Crest (?:(?P<end>End)|(?P<corner>Corner)|(?P<length>\d+)x)";

/// Tiles: `2x4F Tile`.
pub const TILE_PATTERN: &'static str = r"^(\d+)x(\d+)F Tile$";

/// Baseplates: `16x32 Base`.
pub const BASE_PATTERN: &'static str = r"^(\d+)x(\d+) Base$";

/// Cubes: `4x Cube`.
pub const CUBE_PATTERN: &'static str = r"^(\d+)x Cube$";

/// Shapes of a size with a height modifier: `4x Ramp`, `8x Wedge 1/2h`,
/// `4x Cube Steep`.
pub const VARIANT_PATTERN: &'static str =
    r"^(?P<size>\d+)x (?:(?P<cube>Cube)|(?P<ramp>Ramp)|(?P<cornera>CornerA)|(?P<cornerb>CornerB)|(?P<cornerc>CornerC)|(?P<cornerd>CornerD)|(?P<wedge>Wedge))(?:(?P<steep> Steep)|(?P<three_quarters> 3/4h)|(?P<half> 1/2h)|(?P<quarter> 1/4h)| )?$";

/// What the pattern rules give for a brick called `name` that carries the
/// print `print`.
pub open spec fn pattern_rule(name: Seq<char>, print: Seq<char>) -> Option<Seq<DescModel>> {
    if let Some(groups) = captures(SIZE_PATTERN@, name) {
        size_rule_spec(groups, print)
    } else if let Some(groups) = captures(RAMP_PATTERN@, name) {
        ramp_rule_spec(groups)
    } else if let Some(groups) = captures(CREST_PATTERN@, name) {
        crest_rule_spec(groups)
    } else if let Some(groups) = captures(TILE_PATTERN@, name) {
        plate_rule_spec(groups, DEFAULT_TILE@)
    } else if let Some(groups) = captures(BASE_PATTERN@, name) {
        plate_rule_spec(groups, DEFAULT_BRICK@)
    } else if let Some(groups) = captures(CUBE_PATTERN@, name) {
        cube_rule_spec(groups)
    } else if let Some(groups) = captures(VARIANT_PATTERN@, name) {
        variant_rule_spec(groups)
    } else {
        None
    }
}

/// What the rule table gives for a brick called `name` that carries the
/// print `print`: its literal rule where it has one, else what the
/// patterns give.
pub open spec fn mapping_of(name: Seq<char>, print: Seq<char>) -> Option<Seq<DescModel>> {
    match literal_rule(name) {
        Some(found) => Some(found),
        None => pattern_rule(name, print),
    }
}

/// Whatever the rule table gives holds at least one descriptor.
pub proof fn lemma_mapping_nonempty(name: Seq<char>, print: Seq<char>)
    ensures
        mapping_of(name, print) matches Some(found) ==> found.len() > 0,
{
    lemma_literal_nonempty(name);
}

/// Every descriptor that the rule table gives has a rotation offset
/// below 4.
pub proof fn lemma_rotation_offsets(name: Seq<char>, print: Seq<char>)
    ensures
        mapping_of(name, print) matches Some(found) ==> forall|k: int|
            0 <= k < found.len() ==> (#[trigger] found[k]).rotation_offset < 4,
{
    lemma_rows_turn_less_than_four();
    lemma_rows_named_turn(LITERALS@, name);
}

/// Where a name has no literal rule and the first pattern matches it, the
/// rule of that pattern decides alone: where it gives nothing, the brick is
/// unmapped, whatever the later patterns would make of the name.
pub proof fn lemma_first_match_decides(name: Seq<char>, print: Seq<char>)
    requires
        literal_rule(name) is None,
        captures(SIZE_PATTERN@, name) is Some,
    ensures
        mapping_of(name, print) == size_rule_spec(captures(SIZE_PATTERN@, name)->0, print),
{
}

/// A name with a literal rule maps to the descriptors of that rule and to
/// nothing else, whatever else is known of the brick: two bricks of that
/// name map alike, wherever they stand and however they are turned.
pub proof fn lemma_literal_decides(first: SourceBrick, second: SourceBrick)
    requires
        first.ui_name@ == second.ui_name@,
        literal_rule(first.ui_name@) is Some,
    ensures
        mapping_of(first.ui_name@, first.print@) == literal_rule(first.ui_name@),
        mapping_of(second.ui_name@, second.print@) == mapping_of(first.ui_name@, first.print@),
{
}

fn map_pattern(name: &str, print: &str) -> (mapping: Option<BrickMapping>)
    ensures
        mapping.deep_view() == pattern_rule(name@, print@),
{
    if let Some(groups) = find_captures(SIZE_PATTERN, name) {
        size_rule(&groups, print)
    } else if let Some(groups) = find_captures(RAMP_PATTERN, name) {
        ramp_rule(&groups)
    } else if let Some(groups) = find_captures(CREST_PATTERN, name) {
        crest_rule(&groups)
    } else if let Some(groups) = find_captures(TILE_PATTERN, name) {
        tile_rule(&groups)
    } else if let Some(groups) = find_captures(BASE_PATTERN, name) {
        base_rule(&groups)
    } else if let Some(groups) = find_captures(CUBE_PATTERN, name) {
        cube_rule(&groups)
    } else if let Some(groups) = find_captures(VARIANT_PATTERN, name) {
        variant_rule(&groups)
    } else {
        None
    }
}

/// Maps one source brick to its descriptors, or to `None` where no rule
/// covers it.
pub fn map_brick(from: &SourceBrick) -> (mapping: Option<BrickMapping>)
    ensures
        mapping.deep_view() == mapping_of(from.ui_name@, from.print@),
        mapping matches Some(found) ==> found.len() > 0,
{
    let name = from.ui_name.as_str();
    let mapping = match literal(name) {
        Some(found) => Some(found),
        None => map_pattern(name, from.print.as_str()),
    };
    proof {
        lemma_mapping_nonempty(from.ui_name@, from.print@);
    }
    mapping
}

} // verus!
